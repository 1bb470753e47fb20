//! Trailing-default elision for positional argument lists.
//!
//! A command's full argument list has a fixed length; its last
//! `defaults.len()` slots are optional and a null slot there means "use the
//! default". The remote service allows omitting trailing arguments
//! altogether but rejects gaps, so elision keeps the shortest prefix that
//! must actually be transmitted: everything up to and including the
//! rightmost supplied optional argument, with the null slots before it
//! backfilled from the defaults table.

use vstd::prelude::*;

use crate::wire::WireValue;

verus! {

/// Length of the required prefix: the optional suffix holds the last
/// `defaults.len()` slots of `args`.
pub open spec fn required_len(args: Seq<WireValue>, defaults: Seq<WireValue>) -> int {
    args.len() - defaults.len()
}

/// The rightmost index in `lo <= j < hi` whose slot is non-null, or `lo - 1`
/// when every slot of that range is null.
pub open spec fn last_supplied(args: Seq<WireValue>, lo: int, hi: int) -> int
    decreases hi - lo,
{
    if hi <= lo {
        lo - 1
    } else if !(args[hi - 1] is Null) {
        hi - 1
    } else {
        last_supplied(args, lo, hi - 1)
    }
}

/// Length of the prefix that elision keeps: up to and including the
/// rightmost supplied optional argument, and at least the required prefix.
pub open spec fn kept_len(args: Seq<WireValue>, defaults: Seq<WireValue>) -> int {
    last_supplied(args, required_len(args, defaults), args.len() as int) + 1
}

/// The value slot `j` of the kept prefix carries after elision: a null
/// optional slot is backfilled from `defaults`, every other slot is kept.
pub open spec fn slot_after(args: Seq<WireValue>, defaults: Seq<WireValue>, j: int) -> WireValue {
    if required_len(args, defaults) <= j && args[j] is Null {
        defaults[j - required_len(args, defaults)]
    } else {
        args[j]
    }
}

/// What elision produces.
pub open spec fn elided(args: Seq<WireValue>, defaults: Seq<WireValue>) -> Seq<WireValue> {
    Seq::new(kept_len(args, defaults) as nat, |j: int| slot_after(args, defaults, j))
}

/// Slot `j` is a defect of the command's declared schema: a null optional
/// slot that must be backfilled (a supplied value stands somewhere to its
/// right) but whose declared default is itself null.
pub open spec fn missing_default_at(
    args: Seq<WireValue>,
    defaults: Seq<WireValue>,
    j: int,
) -> bool {
    &&& required_len(args, defaults) <= j
    &&& j < kept_len(args, defaults) - 1
    &&& args[j] is Null
    &&& defaults[j - required_len(args, defaults)] is Null
}

/// Every slot that elision must backfill has a usable default.
pub open spec fn defaults_complete(args: Seq<WireValue>, defaults: Seq<WireValue>) -> bool {
    forall|j: int| !missing_default_at(args, defaults, j)
}

/// A programming-contract violation found during elision: the null optional
/// slot at `arg_index` must be backfilled, but its declared default is null.
/// It indicates that the command wrapper declared an impossible default
/// schema; callers treat it as a fatal defect, not as a runtime error.
#[derive(Debug, Clone, Copy, PartialEq, Eq)]
pub struct MissingDefault {
    pub arg_index: usize,
}

proof fn lemma_last_supplied_null_suffix(args: Seq<WireValue>, lo: int, h: int, hi: int)
    requires
        lo <= h <= hi,
        forall|j: int| h <= j < hi ==> args[j] is Null,
    ensures
        last_supplied(args, lo, hi) == last_supplied(args, lo, h),
    decreases hi - h,
{
    if h < hi {
        assert(args[hi - 1] is Null);
        lemma_last_supplied_null_suffix(args, lo, h, hi - 1);
    }
}

proof fn lemma_last_supplied_bounds(args: Seq<WireValue>, lo: int, hi: int)
    requires
        lo <= hi,
    ensures
        lo - 1 <= last_supplied(args, lo, hi) < hi,
    decreases hi - lo,
{
    if hi > lo && args[hi - 1] is Null {
        lemma_last_supplied_bounds(args, lo, hi - 1);
    }
}

/// Elide the argument list, reporting a missing default instead of failing.
///
/// On a well-formed schema the result is exactly `elided(args, defaults)`;
/// otherwise the reported index is the rightmost defective slot.
#[verifier::loop_isolation(false)]
pub fn try_handle_defaults(
    args: Vec<WireValue>,
    defaults: Vec<WireValue>,
) -> (r: Result<Vec<WireValue>, MissingDefault>)
    requires
        defaults@.len() <= args@.len(),
    ensures
        defaults_complete(args@, defaults@) ==> (r matches Ok(v)
            && v@ == elided(args@, defaults@)),
        !defaults_complete(args@, defaults@) ==> (r matches Err(e)
            && missing_default_at(args@, defaults@, e.arg_index as int)
            && (forall|j: int| e.arg_index < j ==> !missing_default_at(args@, defaults@, j))),
{
    let ghost args0 = args@;
    let ghost defaults0 = defaults@;
    let ghost lo = args0.len() - defaults0.len();
    let mut args = args;
    let mut defaults = defaults;
    let n = args.len();
    let m = defaults.len();

    // Pass over the optional arguments in backwards order, filling in
    // defaults after the first non-null optional argument has been observed.
    let mut first_non_null: Option<usize> = None;
    let mut i: usize = 0;
    while i < m
        invariant
            n == args0.len(),
            m == defaults0.len(),
            m <= n,
            i <= m,
            lo == n - m,
            args@.len() == n,
            defaults@ == defaults0.take(m - i),
            forall|j: int| 0 <= j < n - i ==> args@[j] == args0[j],
            match first_non_null {
                None => args@ == args0 && (forall|j: int| n - i <= j < n ==> args0[j] is Null),
                Some(k) => {
                    &&& n - i <= k < n
                    &&& !(args0[k as int] is Null)
                    &&& forall|j: int| k < j < n ==> args0[j] is Null
                    &&& forall|j: int|
                        n - i <= j < n ==> args@[j] == (if j <= k && args0[j] is Null {
                            defaults0[j - lo]
                        } else {
                            args0[j]
                        })
                },
            },
            forall|j: int| n - i <= j < n ==> !missing_default_at(args0, defaults0, j),
        decreases m - i,
    {
        let args_i = n - 1 - i;
        let d_opt = defaults.pop();
        let d = match d_opt {
            Some(d) => d,
            None => {
                proof {
                    assert(false);
                }
                vstd::pervasive::unreached()
            },
        };
        proof {
            assert(d == defaults0[m - 1 - i]);
            match first_non_null {
                Some(k) => {
                    lemma_last_supplied_null_suffix(args0, lo, k + 1, n as int);
                    assert(last_supplied(args0, lo, n as int) == k);
                },
                None => {},
            }
        }
        if args[args_i].is_null() {
            if first_non_null.is_some() {
                if d.is_null() {
                    proof {
                        assert(missing_default_at(args0, defaults0, args_i as int));
                        assert(!defaults_complete(args0, defaults0));
                        lemma_last_supplied_bounds(args0, lo, n as int);
                        assert forall|j: int|
                            args_i < j implies !missing_default_at(args0, defaults0, j) by {
                            if missing_default_at(args0, defaults0, j) {
                                assert(lo <= j < kept_len(args0, defaults0) - 1 < n);
                            }
                        }
                    }
                    return Err(MissingDefault { arg_index: args_i });
                }
                args[args_i] = d;
            } else {
                proof {
                    lemma_last_supplied_null_suffix(args0, lo, args_i as int, n as int);
                    lemma_last_supplied_bounds(args0, lo, args_i as int);
                    assert(kept_len(args0, defaults0) - 1 < args_i);
                    assert(!missing_default_at(args0, defaults0, args_i as int));
                }
            }
        } else {
            if first_non_null.is_none() {
                first_non_null = Some(args_i);
            }
        }
        i = i + 1;
    }

    proof {
        assert forall|j: int| !missing_default_at(args0, defaults0, j) by {
            lemma_last_supplied_bounds(args0, lo, n as int);
            if missing_default_at(args0, defaults0, j) {
                assert(lo <= j < n);
            }
        }
    }

    match first_non_null {
        Some(k) => {
            proof {
                lemma_last_supplied_null_suffix(args0, lo, k + 1, n as int);
                assert(kept_len(args0, defaults0) == k + 1);
            }
            args.truncate(k + 1);
            proof {
                assert(args@ =~= elided(args0, defaults0));
            }
            Ok(args)
        },
        None => {
            proof {
                lemma_last_supplied_null_suffix(args0, lo, lo, n as int);
                assert(kept_len(args0, defaults0) == lo);
            }
            args.truncate(n - m);
            proof {
                assert(args@ =~= elided(args0, defaults0));
            }
            Ok(args)
        },
    }
}

/// Handle default values in the argument list.
///
/// Null slots of the optional suffix are substituted with the corresponding
/// values of the `defaults` table, except when they are trailing, in which
/// case they are dropped from the returned list altogether. The schema must
/// be well formed: a null slot that has to be backfilled must have a
/// non-null default (`defaults_complete`).
pub fn handle_defaults(args: Vec<WireValue>, defaults: Vec<WireValue>) -> (r: Vec<WireValue>)
    requires
        defaults@.len() <= args@.len(),
        defaults_complete(args@, defaults@),
    ensures
        r@ == elided(args@, defaults@),
{
    match try_handle_defaults(args, defaults) {
        Ok(v) => v,
        Err(_) => {
            proof {
                assert(false);
            }
            vstd::pervasive::unreached()
        },
    }
}

/// When no optional slot is supplied, elision yields exactly the required
/// prefix: every optional argument is dropped.
pub proof fn lemma_elide_no_optional_supplied(args: Seq<WireValue>, defaults: Seq<WireValue>)
    requires
        defaults.len() <= args.len(),
        forall|j: int| args.len() - defaults.len() <= j < args.len() ==> args[j] is Null,
    ensures
        defaults_complete(args, defaults),
        elided(args, defaults) == args.take(args.len() - defaults.len()),
{
    let lo = args.len() - defaults.len();
    lemma_last_supplied_null_suffix(args, lo, lo, args.len() as int);
    assert(kept_len(args, defaults) == lo);
    assert(elided(args, defaults) =~= args.take(lo));
}

/// When the very last slot is supplied, nothing is dropped: elision keeps
/// the full length. With a single optional slot the array even comes back
/// unchanged; with more than one, null slots to its left are backfilled.
pub proof fn lemma_elide_last_supplied_keeps_all(args: Seq<WireValue>, defaults: Seq<WireValue>)
    requires
        1 <= defaults.len() <= args.len(),
        !(args[args.len() - 1] is Null),
    ensures
        kept_len(args, defaults) == args.len(),
        elided(args, defaults).len() == args.len(),
        elided(args, defaults)[args.len() - 1] == args[args.len() - 1],
        defaults.len() == 1 ==> elided(args, defaults) == args,
{
    let n = args.len() as int;
    assert(last_supplied(args, required_len(args, defaults), n) == n - 1);
    if defaults.len() == 1 {
        assert(elided(args, defaults) =~= args);
    }
}

/// The general shape of an elision that both truncates and backfills: with
/// the rightmost supplied optional slot at `k`, the result is the prefix
/// ending at `k`; the supplied slot's own value is preserved unchanged, the
/// required prefix is untouched, and each null optional slot before `k` is
/// replaced by its default.
pub proof fn lemma_elide_fills_gaps(args: Seq<WireValue>, defaults: Seq<WireValue>, k: int)
    requires
        defaults.len() <= args.len(),
        args.len() - defaults.len() <= k < args.len(),
        !(args[k] is Null),
        forall|j: int| k < j < args.len() ==> args[j] is Null,
        forall|j: int|
            args.len() - defaults.len() <= j < k && args[j] is Null ==> !(defaults[j - (
            args.len() - defaults.len())] is Null),
    ensures
        defaults_complete(args, defaults),
        elided(args, defaults).len() == k + 1,
        elided(args, defaults)[k] == args[k],
        forall|j: int| 0 <= j < args.len() - defaults.len() ==> elided(args, defaults)[j] == args[j],
        forall|j: int|
            args.len() - defaults.len() <= j < k ==> elided(args, defaults)[j] == (if args[j]
                is Null {
                defaults[j - (args.len() - defaults.len())]
            } else {
                args[j]
            }),
{
    let lo = args.len() - defaults.len();
    lemma_last_supplied_null_suffix(args, lo, k + 1, args.len() as int);
    assert(last_supplied(args, lo, args.len() as int) == k);
    assert(kept_len(args, defaults) == k + 1);
}

} // verus!
