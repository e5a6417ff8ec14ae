//! Laws of the macro argument resolution: each key sets only its own
//! target, unnamed targets keep their conventional names, and the last
//! argument for a key is the one that counts.

use vstd::prelude::*;

use crate::gate::{
    gate_step, gate_targets_upto, init_step, init_targets_upto, spec_init_targets, ArgValue,
    MacroArg, MacroArgError, TargetTexts, InitTexts,
};

verus! {

/// Whether `arg`'s key is the identifier `name`.
pub open spec fn has_key(arg: MacroArg, name: Seq<char>) -> bool {
    arg.key is Some && arg.key->0@ == name
}

/// The three key names are distinct texts.
proof fn lemma_keys_distinct()
    ensures
        "offset"@ != "admin_config"@,
        "offset"@ != "caller"@,
        "admin_config"@ != "caller"@,
{
    reveal_strlit("offset");
    reveal_strlit("admin_config");
    reveal_strlit("caller");
    assert("offset"@.len() != "admin_config"@.len());
    assert("offset"@[0] != "caller"@[0]);
    assert("admin_config"@.len() != "caller"@.len());
}

/// One gate argument sets only the target its key names: `offset` takes
/// any expression's text, `admin_config` and `caller` take a bare name's
/// text; a non-name value for another key, or an unknown key, is refused.
pub proof fn law_gate_key_sets_only_its_target(t: TargetTexts, arg: MacroArg)
    ensures
        has_key(arg, "offset"@) ==> gate_step(t, arg) == Ok::<TargetTexts, MacroArgError>(
            (t.0, t.1, arg.value.text()),
        ),
        has_key(arg, "admin_config"@) && arg.value is Ident ==> gate_step(t, arg) == Ok::<
            TargetTexts,
            MacroArgError,
        >((arg.value.text(), t.1, t.2)),
        has_key(arg, "caller"@) && arg.value is Ident ==> gate_step(t, arg) == Ok::<
            TargetTexts,
            MacroArgError,
        >((t.0, arg.value.text(), t.2)),
        !has_key(arg, "offset"@) && !(arg.value is Ident) ==> gate_step(t, arg) == Err::<
            TargetTexts,
            MacroArgError,
        >(MacroArgError::ExpectedBareName),
        !has_key(arg, "offset"@) && !has_key(arg, "admin_config"@) && !has_key(arg, "caller"@)
            ==> gate_step(t, arg) is Err,
{
    lemma_keys_distinct();
}

/// Before any argument a gate targets `admin_config`, `caller` and offset
/// `0`.
pub proof fn law_gate_defaults()
    ensures
        gate_targets_upto(Seq::<MacroArg>::empty(), 0) == Ok::<TargetTexts, MacroArgError>(
            ("admin_config"@, "caller"@, "0"@),
        ),
{
}

/// A resolved gate target is the text of the last argument for its key,
/// or its conventional name (`admin_config`, `caller`, `0`) when no
/// argument names it.
pub proof fn law_gate_target_is_last_argument_for_its_key(args: Seq<MacroArg>, n: nat)
    requires
        n <= args.len(),
        gate_targets_upto(args, n) is Ok,
    ensures
        ({
            let t = gate_targets_upto(args, n)->Ok_0;
            &&& (forall|i: int| 0 <= i < n ==> !has_key(#[trigger] args[i], "admin_config"@))
                ==> t.0 == "admin_config"@
            &&& (forall|i: int| 0 <= i < n ==> !has_key(#[trigger] args[i], "caller"@)) ==> t.1
                == "caller"@
            &&& (forall|i: int| 0 <= i < n ==> !has_key(#[trigger] args[i], "offset"@)) ==> t.2
                == "0"@
            &&& forall|j: int|
                0 <= j < n && has_key(#[trigger] args[j], "admin_config"@) && (forall|i: int|
                    j < i < n ==> !has_key(#[trigger] args[i], "admin_config"@)) ==> t.0
                    == args[j].value.text()
            &&& forall|j: int|
                0 <= j < n && has_key(#[trigger] args[j], "caller"@) && (forall|i: int|
                    j < i < n ==> !has_key(#[trigger] args[i], "caller"@)) ==> t.1
                    == args[j].value.text()
            &&& forall|j: int|
                0 <= j < n && has_key(#[trigger] args[j], "offset"@) && (forall|i: int|
                    j < i < n ==> !has_key(#[trigger] args[i], "offset"@)) ==> t.2
                    == args[j].value.text()
        }),
    decreases n,
{
    if n > 0 {
        let m = (n - 1) as nat;
        assert(gate_targets_upto(args, m) is Ok);
        law_gate_target_is_last_argument_for_its_key(args, m);
        let prev = gate_targets_upto(args, m)->Ok_0;
        law_gate_key_sets_only_its_target(prev, args[n - 1]);
        lemma_keys_distinct();
    }
}

/// One initializer argument sets only the target its key names; a key
/// that is not an identifier, a non-name value for `admin_config` or
/// `caller`, and an unknown key are refused.
pub proof fn law_initializer_key_sets_only_its_target(t: InitTexts, arg: MacroArg)
    ensures
        has_key(arg, "offset"@) ==> init_step(t, arg) == Some(
            Ok::<InitTexts, MacroArgError>((t.0, t.1, Some(arg.value.text()))),
        ),
        has_key(arg, "admin_config"@) && arg.value is Ident ==> init_step(t, arg) == Some(
            Ok::<InitTexts, MacroArgError>((arg.value.text(), t.1, t.2)),
        ),
        has_key(arg, "caller"@) && arg.value is Ident ==> init_step(t, arg) == Some(
            Ok::<InitTexts, MacroArgError>((t.0, arg.value.text(), t.2)),
        ),
        arg.key is None ==> init_step(t, arg) == Some(
            Err::<InitTexts, MacroArgError>(MacroArgError::ExpectedIdentifierKey),
        ),
        arg.key is Some && !has_key(arg, "offset"@) && !has_key(arg, "admin_config"@)
            && !has_key(arg, "caller"@) ==> init_step(t, arg) == Some(
            Err::<InitTexts, MacroArgError>(MacroArgError::UnknownInitializerKey(arg.key->0)),
        ),
{
    lemma_keys_distinct();
}

/// Before any argument the initializer targets `admin_config` and
/// `caller`, with no offset.
pub proof fn law_initializer_defaults()
    ensures
        init_targets_upto(Seq::<MacroArg>::empty(), 0) == Some(
            Ok::<InitTexts, MacroArgError>(("admin_config"@, "caller"@, None)),
        ),
{
}

/// A resolved initializer target is the text of the last argument for its
/// key, or `admin_config` / `caller` when no argument names it; the offset
/// is the last `offset` argument's text, and there is none until one is
/// given.
pub proof fn law_initializer_target_is_last_argument_for_its_key(args: Seq<MacroArg>, n: nat)
    requires
        n <= args.len(),
        init_targets_upto(args, n) matches Some(Ok(_)),
    ensures
        ({
            let t = init_targets_upto(args, n)->0->Ok_0;
            &&& (forall|i: int| 0 <= i < n ==> !has_key(#[trigger] args[i], "admin_config"@))
                ==> t.0 == "admin_config"@
            &&& (forall|i: int| 0 <= i < n ==> !has_key(#[trigger] args[i], "caller"@)) ==> t.1
                == "caller"@
            &&& (forall|i: int| 0 <= i < n ==> !has_key(#[trigger] args[i], "offset"@)) ==> t.2
                is None
            &&& forall|j: int|
                0 <= j < n && has_key(#[trigger] args[j], "admin_config"@) && (forall|i: int|
                    j < i < n ==> !has_key(#[trigger] args[i], "admin_config"@)) ==> t.0
                    == args[j].value.text()
            &&& forall|j: int|
                0 <= j < n && has_key(#[trigger] args[j], "caller"@) && (forall|i: int|
                    j < i < n ==> !has_key(#[trigger] args[i], "caller"@)) ==> t.1
                    == args[j].value.text()
            &&& forall|j: int|
                0 <= j < n && has_key(#[trigger] args[j], "offset"@) && (forall|i: int|
                    j < i < n ==> !has_key(#[trigger] args[i], "offset"@)) ==> t.2 == Some(
                    args[j].value.text(),
                )
        }),
    decreases n,
{
    if n > 0 {
        let m = (n - 1) as nat;
        assert(init_targets_upto(args, m) matches Some(Ok(_)));
        law_initializer_target_is_last_argument_for_its_key(args, m);
        let prev = init_targets_upto(args, m)->0->Ok_0;
        law_initializer_key_sets_only_its_target(prev, args[n - 1]);
        lemma_keys_distinct();
    }
}

/// A resolved initializer names the last `admin_config` and `caller`
/// arguments, or the conventional names, and the stamped offset.
pub proof fn law_initializer_resolution(args: Seq<MacroArg>)
    requires
        spec_init_targets(args) matches Some(Ok(_)),
    ensures
        ({
            let t = spec_init_targets(args)->0->Ok_0;
            &&& (forall|i: int| 0 <= i < args.len() ==> !has_key(#[trigger] args[i], "caller"@))
                ==> t.1 == "caller"@
            &&& (forall|i: int|
                0 <= i < args.len() ==> !has_key(#[trigger] args[i], "admin_config"@)) ==> t.0
                == "admin_config"@
            &&& exists|j: int| 0 <= j < args.len() && has_key(#[trigger] args[j], "offset"@)
        }),
{
    law_initializer_target_is_last_argument_for_its_key(args, args.len());
    let t = init_targets_upto(args, args.len())->0->Ok_0;
    if forall|i: int| 0 <= i < args.len() ==> !has_key(#[trigger] args[i], "offset"@) {
        assert(t.2 is None);
    }
}

} // verus!
