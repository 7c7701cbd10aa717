//! Options of the explicit `migrate` command and the decision they lead to.

use vstd::prelude::*;
use crate::text::{chars_eq_str, chars_of, concat_str_chars};

verus! {

/// Flags of the `migrate` command.
#[derive(Debug, Clone, Copy, PartialEq, Eq, Structural)]
pub struct MigrateOptions {
    /// `--assert-empty`: refuse to migrate a database that already holds data.
    pub assert_empty: bool,
    /// `--force-empty`: migrate even when `--assert-empty` is given.
    pub force_empty: bool,
}

/// What the arguments (program name excluded) ask for: the flags, or the usage error naming
/// the first unknown argument. Later flags only add to earlier ones.
pub open spec fn spec_migrate_options(args: Seq<Seq<char>>) -> Result<MigrateOptions, Seq<char>>
    decreases args.len(),
{
    if args.len() == 0 {
        Ok(MigrateOptions { assert_empty: false, force_empty: false })
    } else {
        match spec_migrate_options(args.drop_last()) {
            Err(e) => Err(e),
            Ok(o) => {
                let a = args.last();
                if a == "--assert-empty"@ {
                    Ok(MigrateOptions { assert_empty: true, ..o })
                } else if a == "--force-empty"@ {
                    Ok(MigrateOptions { force_empty: true, ..o })
                } else {
                    Err("usage: migrate [--assert-empty] [--force-empty]: unknown flag "@ + a)
                }
            },
        }
    }
}

/// One of the two flags the command knows.
pub open spec fn is_migrate_flag(a: Seq<char>) -> bool {
    a == "--assert-empty"@ || a == "--force-empty"@
}

/// The flags do not depend on their order or repetition: when every argument is a known flag,
/// `assert_empty` is set exactly when `--assert-empty` is among them and `force_empty` exactly
/// when `--force-empty` is; when any argument is not a known flag the arguments are refused.
pub proof fn lemma_flags_are_independent(args: Seq<Seq<char>>)
    ensures
        (forall|i: int| 0 <= i < args.len() ==> is_migrate_flag(#[trigger] args[i]))
            ==> spec_migrate_options(args) == Ok::<MigrateOptions, Seq<char>>(
            MigrateOptions {
                assert_empty: args.contains("--assert-empty"@),
                force_empty: args.contains("--force-empty"@),
            },
        ),
        (exists|i: int| 0 <= i < args.len() && !is_migrate_flag(#[trigger] args[i]))
            ==> spec_migrate_options(args) is Err,
    decreases args.len(),
{
    reveal_strlit("--assert-empty");
    reveal_strlit("--force-empty");
    assert("--assert-empty"@[2] != "--force-empty"@[2]);
    if args.len() > 0 {
        let init = args.drop_last();
        let a = args.last();
        lemma_flags_are_independent(init);
        if forall|i: int| 0 <= i < args.len() ==> is_migrate_flag(#[trigger] args[i]) {
            assert forall|i: int| 0 <= i < init.len() implies is_migrate_flag(#[trigger] init[i]) by {
                assert(init[i] == args[i]);
            }
            assert(is_migrate_flag(args[args.len() - 1]));
            assert forall|w: Seq<char>| args.contains(w) <==> (init.contains(w) || w == a) by {
                if args.contains(w) {
                    let i = choose|i: int| 0 <= i < args.len() && args[i] == w;
                    if i < args.len() - 1 {
                        assert(init[i] == w);
                    }
                }
                if init.contains(w) {
                    let i = choose|i: int| 0 <= i < init.len() && init[i] == w;
                    assert(args[i] == w);
                }
                if w == a {
                    assert(args[args.len() - 1] == w);
                }
            }
        }
        if exists|i: int| 0 <= i < args.len() && !is_migrate_flag(#[trigger] args[i]) {
            let i = choose|i: int| 0 <= i < args.len() && !is_migrate_flag(#[trigger] args[i]);
            if i < args.len() - 1 {
                assert(init[i] == args[i]);
                assert(!is_migrate_flag(init[i]));
            }
        }
    } else {
        assert(!args.contains("--assert-empty"@));
        assert(!args.contains("--force-empty"@));
    }
}

/// The arguments as character sequences.
pub open spec fn arg_views(args: Seq<String>) -> Seq<Seq<char>> {
    args.map_values(|a: String| a@)
}

/// Reads the `migrate` flags from the arguments that follow the program name.
pub fn parse_migrate_args(args: &Vec<String>) -> (r: Result<MigrateOptions, String>)
    ensures
        match r {
            Ok(o) => spec_migrate_options(arg_views(args@)) == Ok::<MigrateOptions, Seq<char>>(o),
            Err(e) => spec_migrate_options(arg_views(args@)) == Err::<MigrateOptions, Seq<char>>(
                e@,
            ),
        },
        (forall|i: int| 0 <= i < args@.len() ==> is_migrate_flag(#[trigger] args@[i]@)) ==> r
            == Ok::<MigrateOptions, String>(
            MigrateOptions {
                assert_empty: arg_views(args@).contains("--assert-empty"@),
                force_empty: arg_views(args@).contains("--force-empty"@),
            },
        ),
        (exists|i: int| 0 <= i < args@.len() && !is_migrate_flag(#[trigger] args@[i]@)) ==> r is Err,
{
    proof {
        lemma_flags_are_independent(arg_views(args@));
        assert forall|i: int| 0 <= i < arg_views(args@).len() implies #[trigger] arg_views(args@)[i]
            == args@[i]@ by {}
        if exists|i: int| 0 <= i < args@.len() && !is_migrate_flag(#[trigger] args@[i]@) {
            let i = choose|i: int| 0 <= i < args@.len() && !is_migrate_flag(#[trigger] args@[i]@);
            assert(!is_migrate_flag(arg_views(args@)[i]));
        }
    }
    let mut opts = MigrateOptions { assert_empty: false, force_empty: false };
    let mut k: usize = 0;
    while k < args.len()
        invariant
            k <= args@.len(),
            spec_migrate_options(arg_views(args@.subrange(0, k as int))) == Ok::<
                MigrateOptions,
                Seq<char>,
            >(opts),
        decreases args.len() - k,
    {
        let a = chars_of(args[k].as_str());
        assert(arg_views(args@.subrange(0, k + 1)).drop_last() =~= arg_views(
            args@.subrange(0, k as int),
        ));
        assert(arg_views(args@.subrange(0, k + 1)).last() == args@[k as int]@);
        if chars_eq_str(&a, "--assert-empty") {
            opts = MigrateOptions { assert_empty: true, ..opts };
        } else if chars_eq_str(&a, "--force-empty") {
            opts = MigrateOptions { force_empty: true, ..opts };
        } else {
            proof {
                lemma_error_persists(args@, k as int);
            }
            return Err(
                concat_str_chars("usage: migrate [--assert-empty] [--force-empty]: unknown flag ", &a),
            );
        }
        k = k + 1;
    }
    assert(args@.subrange(0, args@.len() as int) =~= args@);
    Ok(opts)
}

/// Once a prefix of the arguments is rejected, so is every longer prefix, with the same error.
proof fn lemma_error_persists(args: Seq<String>, k: int)
    requires
        0 <= k < args.len(),
        spec_migrate_options(arg_views(args.subrange(0, k + 1))) is Err,
    ensures
        spec_migrate_options(arg_views(args)) == spec_migrate_options(
            arg_views(args.subrange(0, k + 1)),
        ),
    decreases args.len() - k,
{
    if k + 1 < args.len() {
        assert(arg_views(args.subrange(0, k + 2)).drop_last() =~= arg_views(
            args.subrange(0, k + 1),
        ));
        lemma_error_persists(args, k + 1);
    } else {
        assert(args.subrange(0, k + 1) =~= args);
    }
}

impl MigrateOptions {
    /// Whether the command must check that the target database is empty before migrating.
    pub fn checks_empty(&self) -> (b: bool)
        ensures
            b == (self.assert_empty && !self.force_empty),
    {
        self.assert_empty && !self.force_empty
    }
}

} // verus!
