//! The decisions of the library's attribute macros, on plain values: where
//! the module marker may stand, how a gate's and an initializer's
//! arguments resolve to the parameters they name, where the bootstrap
//! statement goes, and which parameter attributes the instruction shim
//! strips. The token plumbing around them belongs to a proc-macro crate.

use vstd::prelude::*;

verus! {

/// The error text of a marker written above `#[lez_program]`.
pub open spec fn spec_misplaced_message() -> Seq<char> {
    "#[admin_authority] must come after #[lez_program]: a marker above it expands first and is invisible to the framework"@
}

/// The module marker was written above `#[lez_program]` exactly when that
/// attribute is still on the module the marker expands on; then the
/// result is the error text.
pub fn misplaced_above_lez_program(attr_paths: &Vec<String>) -> (r: Option<String>)
    ensures
        r is Some <==> exists|i: int| 0 <= i < attr_paths@.len() && (#[trigger] attr_paths@[i])@
            == "lez_program"@,
        r is Some ==> r->0@ == spec_misplaced_message(),
{
    let target = String::from_str("lez_program");
    let mut i: usize = 0;
    while i < attr_paths.len()
        invariant
            0 <= i <= attr_paths@.len(),
            target@ == "lez_program"@,
            forall|j: int| 0 <= j < i ==> (#[trigger] attr_paths@[j])@ != "lez_program"@,
        decreases attr_paths@.len() - i,
    {
        if attr_paths[i] == target {
            return Some(
                String::from_str(
                    "#[admin_authority] must come after #[lez_program]: a marker above it expands first and is invisible to the framework",
                ),
            );
        }
        i = i + 1;
    }
    None
}

/// The value of a `key = value` macro argument, with its source text.
#[derive(Clone, Debug, PartialEq, Eq)]
pub enum ArgValue {
    /// A single identifier.
    Ident(String),
    /// A path of more than one segment.
    Path(String),
    /// Any other expression.
    Expr(String),
}

impl ArgValue {
    /// The value's source text.
    pub open spec fn text(self) -> Seq<char> {
        match self {
            ArgValue::Ident(s) => s@,
            ArgValue::Path(s) => s@,
            ArgValue::Expr(s) => s@,
        }
    }
}

/// One `key = value` macro argument. `key` is `None` when the key is not a
/// single identifier.
#[derive(Clone, Debug, PartialEq, Eq)]
pub struct MacroArg {
    /// The key, when it is a single identifier.
    pub key: Option<String>,
    /// The value.
    pub value: ArgValue,
}

/// The parameters and window offset that a gate or initializer targets, by
/// their source text.
#[derive(Clone, Debug, PartialEq, Eq)]
pub struct GateTargets {
    /// The parameter holding the admin config (default `admin_config`).
    pub admin_config: String,
    /// The signing caller's parameter (default `caller`).
    pub caller: String,
    /// The window offset expression (default `0` for a gate).
    pub offset: String,
}

/// Why a macro's arguments are refused.
#[derive(Clone, Debug, PartialEq, Eq)]
pub enum MacroArgError {
    /// A key that is not a single identifier.
    ExpectedIdentifierKey,
    /// A parameter value that is not a bare name.
    ExpectedBareName,
    /// A gate key other than `admin_config`, `caller` or `offset`.
    UnknownGateKey,
    /// An initializer key other than `admin_config`, `caller` or `offset`.
    UnknownInitializerKey(String),
    /// An initializer without the framework-stamped `offset`.
    InitializerNeedsOffset,
}

impl MacroArgError {
    /// The error's text.
    pub open spec fn spec_message(self) -> Seq<char> {
        match self {
            MacroArgError::ExpectedIdentifierKey => "expected an identifier key"@,
            MacroArgError::ExpectedBareName => "expected a bare parameter name"@,
            MacroArgError::UnknownGateKey => "unknown key; expected `admin_config` or `caller` or `offset`"@,
            MacroArgError::UnknownInitializerKey(key) => "unknown key `"@ + key@
                + "`; expected `admin_config`, `caller` or `offset`"@,
            MacroArgError::InitializerNeedsOffset => "#[admin_initialize] is embedded-mode only and its location is framework-stamped; dedicated mode provides the admin_initialize instruction instead"@,
        }
    }

    /// The error's text, as the macro reports it.
    pub fn message(&self) -> (s: String)
        ensures
            s@ == self.spec_message(),
    {
        match self {
            MacroArgError::ExpectedIdentifierKey => String::from_str("expected an identifier key"),
            MacroArgError::ExpectedBareName => String::from_str("expected a bare parameter name"),
            MacroArgError::UnknownGateKey => String::from_str(
                "unknown key; expected `admin_config` or `caller` or `offset`",
            ),
            MacroArgError::UnknownInitializerKey(key) => {
                let mut s = String::from_str("unknown key `");
                s.append(key.as_str());
                s.append("`; expected `admin_config`, `caller` or `offset`");
                s
            },
            MacroArgError::InitializerNeedsOffset => String::from_str(
                "#[admin_initialize] is embedded-mode only and its location is framework-stamped; dedicated mode provides the admin_initialize instruction instead",
            ),
        }
    }
}

/// Targets by their text: admin config, caller, offset.
pub type TargetTexts = (Seq<char>, Seq<char>, Seq<char>);

/// One gate argument applied to the targets so far: `offset` takes any
/// expression; any other key needs a bare name and must be `admin_config`
/// or `caller`.
pub open spec fn gate_step(t: TargetTexts, arg: MacroArg) -> Result<TargetTexts, MacroArgError> {
    if arg.key is Some && arg.key->0@ == "offset"@ {
        Ok((t.0, t.1, arg.value.text()))
    } else if !(arg.value is Ident) {
        Err(MacroArgError::ExpectedBareName)
    } else if arg.key is Some && arg.key->0@ == "admin_config"@ {
        Ok((arg.value.text(), t.1, t.2))
    } else if arg.key is Some && arg.key->0@ == "caller"@ {
        Ok((t.0, arg.value.text(), t.2))
    } else {
        Err(MacroArgError::UnknownGateKey)
    }
}

/// Gate targets after applying arguments `0 .. n` to the conventional
/// names `admin_config`, `caller` and offset `0`; a refusal is final.
pub open spec fn gate_targets_upto(args: Seq<MacroArg>, n: nat) -> Result<TargetTexts, MacroArgError>
    decreases n,
{
    if n == 0 {
        Ok(("admin_config"@, "caller"@, "0"@))
    } else {
        match gate_targets_upto(args, (n - 1) as nat) {
            Err(e) => Err(e),
            Ok(t) => gate_step(t, args[n - 1]),
        }
    }
}

/// Whether `key` is `Some` text equal to `name`.
fn key_is(key: &Option<String>, name: &String) -> (b: bool)
    ensures
        b == (key is Some && key->0@ == name@),
{
    match key {
        Some(k) => *k == *name,
        None => false,
    }
}

/// The value's source text.
fn value_text(value: &ArgValue) -> (s: String)
    ensures
        s@ == value.text(),
{
    match value {
        ArgValue::Ident(s) => s.clone(),
        ArgValue::Path(s) => s.clone(),
        ArgValue::Expr(s) => s.clone(),
    }
}

/// Resolves a gate's `key = value` arguments to the parameters that its
/// admin check reads, in order, the first refused argument deciding.
pub fn resolve_gate_args(args: &Vec<MacroArg>) -> (r: Result<GateTargets, MacroArgError>)
    ensures
        match gate_targets_upto(args@, args@.len()) {
            Ok(t) => r is Ok && r->Ok_0.admin_config@ == t.0 && r->Ok_0.caller@ == t.1
                && r->Ok_0.offset@ == t.2,
            Err(e) => r == Err::<GateTargets, MacroArgError>(e),
        },
{
    let k_offset = String::from_str("offset");
    let k_config = String::from_str("admin_config");
    let k_caller = String::from_str("caller");
    let mut config = String::from_str("admin_config");
    let mut caller = String::from_str("caller");
    let mut offset = String::from_str("0");
    let mut i: usize = 0;
    while i < args.len()
        invariant
            0 <= i <= args@.len(),
            k_offset@ == "offset"@,
            k_config@ == "admin_config"@,
            k_caller@ == "caller"@,
            gate_targets_upto(args@, i as nat) == Ok::<TargetTexts, MacroArgError>(
                (config@, caller@, offset@),
            ),
        decreases args@.len() - i,
    {
        let arg = &args[i];
        if key_is(&arg.key, &k_offset) {
            offset = value_text(&arg.value);
        } else {
            let name = match &arg.value {
                ArgValue::Ident(s) => s.clone(),
                _ => {
                    proof {
                        lemma_gate_err_stays_err(args@, (i + 1) as nat, args@.len());
                    }
                    return Err(MacroArgError::ExpectedBareName);
                },
            };
            if key_is(&arg.key, &k_config) {
                config = name;
            } else if key_is(&arg.key, &k_caller) {
                caller = name;
            } else {
                proof {
                    lemma_gate_err_stays_err(args@, (i + 1) as nat, args@.len());
                }
                return Err(MacroArgError::UnknownGateKey);
            }
        }
        i = i + 1;
    }
    Ok(GateTargets { admin_config: config, caller, offset })
}

/// Once a gate argument is refused, the refusal stands for every longer
/// prefix.
proof fn lemma_gate_err_stays_err(args: Seq<MacroArg>, n: nat, m: nat)
    requires
        n <= m,
        gate_targets_upto(args, n) is Err,
    ensures
        gate_targets_upto(args, m) == gate_targets_upto(args, n),
    decreases m - n,
{
    if n < m {
        lemma_gate_err_stays_err(args, n + 1, m);
    }
}

/// Targets of an initializer so far; the offset is `None` until stamped.
pub type InitTexts = (Seq<char>, Seq<char>, Option<Seq<char>>);

/// One initializer argument applied to the targets so far: `None` is the
/// case the macro does not handle (a parameter value that is a path of
/// several segments), which it answers with a panic.
pub open spec fn init_step(t: InitTexts, arg: MacroArg) -> Option<Result<InitTexts, MacroArgError>> {
    if arg.key is None {
        Some(Err(MacroArgError::ExpectedIdentifierKey))
    } else if arg.key->0@ == "offset"@ {
        Some(Ok((t.0, t.1, Some(arg.value.text()))))
    } else if arg.key->0@ == "admin_config"@ || arg.key->0@ == "caller"@ {
        match arg.value {
            ArgValue::Ident(s) => if arg.key->0@ == "admin_config"@ {
                Some(Ok((s@, t.1, t.2)))
            } else {
                Some(Ok((t.0, s@, t.2)))
            },
            ArgValue::Path(_) => None,
            ArgValue::Expr(_) => Some(Err(MacroArgError::ExpectedBareName)),
        }
    } else {
        Some(Err(MacroArgError::UnknownInitializerKey(arg.key->0)))
    }
}

/// The initializer's targets after its first `n` arguments, from the
/// defaults `admin_config` and `caller` and no offset.
pub open spec fn init_targets_upto(args: Seq<MacroArg>, n: nat) -> Option<
    Result<InitTexts, MacroArgError>,
>
    decreases n,
{
    if n == 0 {
        Some(Ok(("admin_config"@, "caller"@, None)))
    } else {
        match init_targets_upto(args, (n - 1) as nat) {
            None => None,
            Some(Err(e)) => Some(Err(e)),
            Some(Ok(t)) => init_step(t, args[n - 1]),
        }
    }
}

/// What resolving an initializer's arguments gives: `None` where the
/// macro does not handle them, else the targets once an offset was
/// stamped, or the first refusal.
pub open spec fn spec_init_targets(args: Seq<MacroArg>) -> Option<Result<TargetTexts, MacroArgError>> {
    match init_targets_upto(args, args.len()) {
        Some(Ok(t)) => match t.2 {
            Some(off) => Some(Ok((t.0, t.1, off))),
            None => Some(Err(MacroArgError::InitializerNeedsOffset)),
        },
        Some(Err(e)) => Some(Err(e)),
        None => None,
    }
}

/// Resolves an embedded-mode initializer's `key = value` arguments to the
/// embedding account, the signer and the stamped offset. The offset is
/// required: dedicated mode has its own initialize instruction.
pub fn resolve_initializer_args(args: &Vec<MacroArg>) -> (r: Result<GateTargets, MacroArgError>)
    requires
        init_targets_upto(args@, args@.len()) is Some,
    ensures
        match spec_init_targets(args@) {
            Some(Ok(t)) => r is Ok && r->Ok_0.admin_config@ == t.0 && r->Ok_0.caller@ == t.1
                && r->Ok_0.offset@ == t.2,
            Some(Err(e)) => r == Err::<GateTargets, MacroArgError>(e),
            None => false,
        },
{
    let k_offset = String::from_str("offset");
    let k_config = String::from_str("admin_config");
    let k_caller = String::from_str("caller");
    let mut config = String::from_str("admin_config");
    let mut caller = String::from_str("caller");
    let mut offset: Option<String> = None;
    let mut i: usize = 0;
    while i < args.len()
        invariant
            0 <= i <= args@.len(),
            k_offset@ == "offset"@,
            k_config@ == "admin_config"@,
            k_caller@ == "caller"@,
            init_targets_upto(args@, args@.len()) is Some,
            init_targets_upto(args@, i as nat) == Some(
                Ok::<InitTexts, MacroArgError>(
                    (
                        config@,
                        caller@,
                        match offset {
                            Some(o) => Some(o@),
                            None => None,
                        },
                    ),
                ),
            ),
        decreases args@.len() - i,
    {
        proof {
            if init_targets_upto(args@, (i + 1) as nat) is None {
                lemma_init_none_stays_none(args@, (i + 1) as nat, args@.len());
            }
        }
        let arg = &args[i];
        let key = match &arg.key {
            Some(k) => k,
            None => {
                proof {
                    lemma_init_err_stays_err(args@, (i + 1) as nat, args@.len());
                }
                return Err(MacroArgError::ExpectedIdentifierKey);
            },
        };
        if *key == k_offset {
            offset = Some(value_text(&arg.value));
        } else if *key == k_config || *key == k_caller {
            let name = match &arg.value {
                ArgValue::Ident(s) => s.clone(),
                _ => {
                    proof {
                        lemma_init_err_stays_err(args@, (i + 1) as nat, args@.len());
                    }
                    return Err(MacroArgError::ExpectedBareName);
                },
            };
            if *key == k_config {
                config = name;
            } else {
                caller = name;
            }
        } else {
            proof {
                lemma_init_err_stays_err(args@, (i + 1) as nat, args@.len());
            }
            return Err(MacroArgError::UnknownInitializerKey(key.clone()));
        }
        i = i + 1;
    }
    match offset {
        Some(o) => Ok(GateTargets { admin_config: config, caller, offset: o }),
        None => Err(MacroArgError::InitializerNeedsOffset),
    }
}

/// Once the initializer's arguments reach the unhandled case, every longer
/// prefix does too.
proof fn lemma_init_none_stays_none(args: Seq<MacroArg>, n: nat, m: nat)
    requires
        n <= m,
        init_targets_upto(args, n) is None,
    ensures
        init_targets_upto(args, m) is None,
    decreases m - n,
{
    if n < m {
        lemma_init_none_stays_none(args, n + 1, m);
    }
}

/// Once an initializer argument is refused, the refusal stands for every
/// longer prefix.
proof fn lemma_init_err_stays_err(args: Seq<MacroArg>, n: nat, m: nat)
    requires
        n <= m,
        init_targets_upto(args, n) matches Some(Err(_)),
    ensures
        init_targets_upto(args, m) == init_targets_upto(args, n),
    decreases m - n,
{
    if n < m {
        lemma_init_err_stays_err(args, n + 1, m);
    }
}

/// Where an initializer's bootstrap statement goes: just before the body's
/// last statement (its result), or as the only statement of an empty body.
pub fn insert_before_tail<T>(stmts: Vec<T>, stmt: T) -> (r: Vec<T>)
    ensures
        ({
            let k = if stmts@.len() == 0 {
                0
            } else {
                stmts@.len() - 1
            };
            r@ == stmts@.take(k) + seq![stmt] + stmts@.skip(k)
        }),
{
    let mut stmts = stmts;
    let k: usize = if stmts.len() == 0 {
        0
    } else {
        stmts.len() - 1
    };
    let ghost before = stmts@;
    stmts.insert(k, stmt);
    assert(stmts@ =~= before.take(k as int) + seq![stmt] + before.skip(k as int));
    stmts
}

/// The instruction shim keeps a parameter attribute exactly when its path
/// is not `account`.
pub fn keeps_param_attr(path: &String) -> (b: bool)
    ensures
        b == (path@ != "account"@),
{
    let account = String::from_str("account");
    !(*path == account)
}

} // verus!
