//! The arguments of the `#[lariv_rs::main(...)]` entry-point attribute: which
//! keys it takes, what each sets, and the errors it reports. The attribute
//! syntax is read by the macro; this module decides what the arguments mean.

use vstd::prelude::*;

use crate::text::{push_str, str_eq, to_owned};

verus! {

/// The runtime the entry point runs on.
#[derive(Debug, Clone, Copy, PartialEq, Eq, Structural)]
pub enum RuntimeFlavor {
    CurrentThread,
    MultiThread,
}

/// The value after `key =`.
#[derive(Debug, Clone, PartialEq, Eq)]
pub enum MainArgValue {
    /// A string literal, by its content.
    Str(String),
    /// Any other expression, by its source text.
    Expr(String),
}

/// One `key = value` argument.
pub struct MainArgEntry {
    pub key: String,
    pub value: MainArgValue,
}

/// The parsed arguments.
#[derive(Debug, Clone, PartialEq, Eq)]
pub struct MainArgs {
    /// The stack size expression, when given.
    pub stack_size: Option<MainArgValue>,
    pub flavor: RuntimeFlavor,
    /// The server thread's name, when given.
    pub thread_name: Option<String>,
}

/// The server thread's name when none is given.
pub const DEFAULT_THREAD_NAME: &'static str = "lariv-server";

/// The message for a repeated key.
pub open spec fn duplicate_message(key: Seq<char>) -> Seq<char> {
    "duplicate `"@ + key + "`"@
}

/// The message for an unknown runtime flavor.
pub open spec fn unknown_flavor_message(flavor: Seq<char>) -> Seq<char> {
    "unknown flavor `"@ + flavor + "`; expected `current_thread` or `multi_thread`"@
}

/// The message for an unknown key.
pub open spec fn unknown_key_message(key: Seq<char>) -> Seq<char> {
    "unknown attribute `"@ + key + "`; expected `stack_size`, `flavor`, or `thread_name`"@
}

/// The message for a value that must be a string literal.
pub const EXPECTED_STRING: &'static str = "expected string literal";

/// Whether some entry of `es` has key `key`.
pub open spec fn has_key(es: Seq<MainArgEntry>, key: Seq<char>) -> bool {
    exists|i: int| 0 <= i < es.len() && es[i].key@ == key
}

/// The flavor a string literal names.
pub open spec fn flavor_named(s: Seq<char>) -> Option<RuntimeFlavor> {
    if s == "current_thread"@ {
        Some(RuntimeFlavor::CurrentThread)
    } else if s == "multi_thread"@ {
        Some(RuntimeFlavor::MultiThread)
    } else {
        None
    }
}

/// What is wrong with entry `e` after the entries `before`, if anything.
pub open spec fn entry_error(before: Seq<MainArgEntry>, e: MainArgEntry) -> Option<Seq<char>> {
    let k = e.key@;
    if k == "stack_size"@ {
        if has_key(before, k) { Some(duplicate_message(k)) } else { None }
    } else if k == "flavor"@ {
        match e.value {
            MainArgValue::Str(s) => if flavor_named(s@) is Some { None } else { Some(unknown_flavor_message(s@)) },
            MainArgValue::Expr(_) => Some(EXPECTED_STRING@),
        }
    } else if k == "thread_name"@ {
        if has_key(before, k) {
            Some(duplicate_message(k))
        } else if e.value is Str {
            None
        } else {
            Some(EXPECTED_STRING@)
        }
    } else {
        Some(unknown_key_message(k))
    }
}

/// The message of the first refused entry, if any.
pub open spec fn first_error(es: Seq<MainArgEntry>) -> Option<Seq<char>>
    decreases es.len(),
{
    if es.len() == 0 {
        None
    } else {
        match first_error(es.drop_last()) {
            Some(m) => Some(m),
            None => entry_error(es.drop_last(), es.last()),
        }
    }
}

/// The flavor the entries choose: the last one given, else the current thread.
pub open spec fn chosen_flavor(es: Seq<MainArgEntry>) -> RuntimeFlavor
    decreases es.len(),
{
    if es.len() == 0 {
        RuntimeFlavor::CurrentThread
    } else if es.last().key@ == "flavor"@ {
        match es.last().value {
            MainArgValue::Str(s) => match flavor_named(s@) {
                Some(f) => f,
                None => chosen_flavor(es.drop_last()),
            },
            MainArgValue::Expr(_) => chosen_flavor(es.drop_last()),
        }
    } else {
        chosen_flavor(es.drop_last())
    }
}

/// The value of the last entry with key `key`.
pub open spec fn last_value(es: Seq<MainArgEntry>, key: Seq<char>) -> Option<MainArgValue>
    decreases es.len(),
{
    if es.len() == 0 {
        None
    } else if es.last().key@ == key {
        Some(es.last().value)
    } else {
        last_value(es.drop_last(), key)
    }
}

/// `args` is what the accepted entries `es` set.
pub open spec fn args_match(args: MainArgs, es: Seq<MainArgEntry>) -> bool {
    &&& args.stack_size == last_value(es, "stack_size"@)
    &&& args.flavor == chosen_flavor(es)
    &&& match last_value(es, "thread_name"@) {
        Some(MainArgValue::Str(s)) => args.thread_name == Some(s),
        _ => args.thread_name is None,
    }
}

proof fn lemma_push(es: Seq<MainArgEntry>, e: MainArgEntry)
    ensures
        forall|k: Seq<char>| #[trigger] has_key(es.push(e), k) == (e.key@ == k || has_key(es, k)),
{
    let es2 = es.push(e);
    assert forall|k: Seq<char>| #[trigger] has_key(es2, k) == (e.key@ == k || has_key(es, k)) by {
        if has_key(es2, k) {
            let i = choose|i: int| 0 <= i < es2.len() && es2[i].key@ == k;
            if i < es.len() {
                assert(es[i] == es2[i]);
            }
        }
        if has_key(es, k) {
            let i = choose|i: int| 0 <= i < es.len() && es[i].key@ == k;
            assert(es2[i] == es[i]);
        }
        if e.key@ == k {
            assert(es2[es.len() as int] == e);
        }
    }
}

proof fn lemma_first_error_prefix(es: Seq<MainArgEntry>, n: int)
    requires
        0 <= n <= es.len(),
        first_error(es.take(n)) is Some,
    ensures
        first_error(es) == first_error(es.take(n)),
    decreases es.len() - n,
{
    if n < es.len() {
        assert(es.take(n + 1).drop_last() == es.take(n));
        lemma_first_error_prefix(es, n + 1);
    } else {
        assert(es.take(n) == es);
    }
}

fn clone_value(v: &MainArgValue) -> (r: MainArgValue)
    ensures
        r == *v,
{
    match v {
        MainArgValue::Str(s) => MainArgValue::Str(s.clone()),
        MainArgValue::Expr(e) => MainArgValue::Expr(e.clone()),
    }
}

fn message_around(before: &str, middle: &str, after: &str) -> (r: String)
    ensures
        r@ == before@ + middle@ + after@,
{
    let mut out = to_owned(before);
    push_str(&mut out, middle);
    push_str(&mut out, after);
    out
}

/// Read the attribute arguments in order; the first refused entry is the error.
pub fn parse_main_args(entries: &Vec<MainArgEntry>) -> (r: Result<MainArgs, String>)
    ensures
        match r {
            Ok(args) => first_error(entries@) is None && args_match(args, entries@),
            Err(m) => first_error(entries@) == Some(m@),
        },
{
    let mut args = MainArgs { stack_size: None, flavor: RuntimeFlavor::CurrentThread, thread_name: None };
    let mut seen_stack = false;
    let mut seen_thread = false;
    let mut i: usize = 0;
    proof {
        reveal_strlit("stack_size");
        reveal_strlit("flavor");
        reveal_strlit("thread_name");
        assert("stack_size"@.len() == 10);
        assert("flavor"@.len() == 6);
        assert("thread_name"@.len() == 11);
    }
    while i < entries.len()
        invariant
            i <= entries.len(),
            first_error(entries@.take(i as int)) is None,
            args_match(args, entries@.take(i as int)),
            seen_stack == has_key(entries@.take(i as int), "stack_size"@),
            seen_thread == has_key(entries@.take(i as int), "thread_name"@),
            "stack_size"@ != "flavor"@,
            "stack_size"@ != "thread_name"@,
            "flavor"@ != "thread_name"@,
        decreases entries.len() - i,
    {
        let e = &entries[i];
        let ghost before = entries@.take(i as int);
        proof {
            assert(entries@.take(i + 1).drop_last() == before);
            assert(entries@.take(i + 1).last() == *e);
            assert(before.push(*e) == entries@.take(i + 1));
            lemma_push(before, *e);
        }
        let k = e.key.as_str();
        if str_eq(k, "stack_size") {
            if seen_stack {
                proof {
                    lemma_first_error_prefix(entries@, i + 1);
                }
                return Err(message_around("duplicate `", k, "`"));
            }
            args.stack_size = Some(clone_value(&e.value));
            seen_stack = true;
        } else if str_eq(k, "flavor") {
            match &e.value {
                MainArgValue::Str(s) => {
                    if str_eq(s.as_str(), "current_thread") {
                        args.flavor = RuntimeFlavor::CurrentThread;
                    } else if str_eq(s.as_str(), "multi_thread") {
                        args.flavor = RuntimeFlavor::MultiThread;
                    } else {
                        proof {
                            lemma_first_error_prefix(entries@, i + 1);
                        }
                        return Err(
                            message_around(
                                "unknown flavor `",
                                s.as_str(),
                                "`; expected `current_thread` or `multi_thread`",
                            ),
                        );
                    }
                },
                MainArgValue::Expr(_) => {
                    proof {
                        lemma_first_error_prefix(entries@, i + 1);
                    }
                    return Err(to_owned(EXPECTED_STRING));
                },
            }
        } else if str_eq(k, "thread_name") {
            if seen_thread {
                proof {
                    lemma_first_error_prefix(entries@, i + 1);
                }
                return Err(message_around("duplicate `", k, "`"));
            }
            match &e.value {
                MainArgValue::Str(s) => {
                    args.thread_name = Some(s.clone());
                },
                MainArgValue::Expr(_) => {
                    proof {
                        lemma_first_error_prefix(entries@, i + 1);
                    }
                    return Err(to_owned(EXPECTED_STRING));
                },
            }
            seen_thread = true;
        } else {
            proof {
                lemma_first_error_prefix(entries@, i + 1);
            }
            return Err(
                message_around("unknown attribute `", k, "`; expected `stack_size`, `flavor`, or `thread_name`"),
            );
        }
        i = i + 1;
    }
    assert(entries@.take(entries.len() as int) == entries@);
    Ok(args)
}

/// The server thread's name: the one given, else `lariv-server`.
pub fn thread_name_or_default(args: &MainArgs) -> (r: String)
    ensures
        r@ == match args.thread_name {
            Some(n) => n@,
            None => DEFAULT_THREAD_NAME@,
        },
{
    match &args.thread_name {
        Some(n) => n.clone(),
        None => to_owned(DEFAULT_THREAD_NAME),
    }
}

/// What the attribute requires of the function it is put on: an `async fn`
/// named `main`.
pub fn check_main_fn(is_async: bool, name: &str) -> (r: Result<(), &'static str>)
    ensures
        !is_async ==> r == Err::<(), &str>("`#[lariv_rs::main]` must be applied to an `async fn`"),
        is_async && name@ != "main"@ ==> r == Err::<(), &str>(
            "`#[lariv_rs::main]` must be applied to a function named `main`",
        ),
        is_async && name@ == "main"@ ==> r is Ok,
{
    if !is_async {
        Err("`#[lariv_rs::main]` must be applied to an `async fn`")
    } else if !str_eq(name, "main") {
        Err("`#[lariv_rs::main]` must be applied to a function named `main`")
    } else {
        Ok(())
    }
}

} // verus!
