//! The texts that tell an operator what is run: the banner written before
//! the child is spawned, and the record of the last invocation.
//!
//! Arguments that may hold any bytes come in already rendered, one text per
//! argument; this module lays the lines out.

use crate::resolver::ExtraEnv;
use vstd::prelude::*;

verus! {

/// The character of one decimal digit.
pub open spec fn digit_char(d: nat) -> char {
    if d == 0 {
        '0'
    } else if d == 1 {
        '1'
    } else if d == 2 {
        '2'
    } else if d == 3 {
        '3'
    } else if d == 4 {
        '4'
    } else if d == 5 {
        '5'
    } else if d == 6 {
        '6'
    } else if d == 7 {
        '7'
    } else if d == 8 {
        '8'
    } else {
        '9'
    }
}

/// The decimal digits of `n`, the most significant first, without leading
/// zeros.
pub open spec fn decimal(n: nat) -> Seq<char>
    decreases n,
{
    if n < 10 {
        seq![digit_char(n)]
    } else {
        decimal(n / 10) + seq![digit_char(n % 10)]
    }
}

/// The text of one decimal digit.
fn digit_text(d: usize) -> (text: &'static str)
    requires
        d < 10,
    ensures
        text@ == seq![digit_char(d as nat)],
{
    proof {
        reveal_strlit("0");
        reveal_strlit("1");
        reveal_strlit("2");
        reveal_strlit("3");
        reveal_strlit("4");
        reveal_strlit("5");
        reveal_strlit("6");
        reveal_strlit("7");
        reveal_strlit("8");
        reveal_strlit("9");
    }
    let text = if d == 0 {
        "0"
    } else if d == 1 {
        "1"
    } else if d == 2 {
        "2"
    } else if d == 3 {
        "3"
    } else if d == 4 {
        "4"
    } else if d == 5 {
        "5"
    } else if d == 6 {
        "6"
    } else if d == 7 {
        "7"
    } else if d == 8 {
        "8"
    } else {
        "9"
    };
    assert(text@ =~= seq![digit_char(d as nat)]);
    text
}

/// Appends the decimal digits of `n` to `out`.
pub fn push_decimal(out: &mut String, n: usize)
    ensures
        final(out)@ == old(out)@ + decimal(n as nat),
    decreases n,
{
    if n < 10 {
        out.append(digit_text(n));
    } else {
        push_decimal(out, n / 10);
        out.append(digit_text(n % 10));
        assert(final(out)@ =~= old(out)@ + decimal(n as nat));
    }
}

/// One line for each variable: two spaces, the name, `=`, the value.
pub open spec fn variable_lines(vars: Seq<(Seq<char>, Seq<char>)>) -> Seq<char>
    decreases vars.len(),
{
    if vars.len() == 0 {
        Seq::empty()
    } else {
        variable_lines(vars.drop_last()) + "  "@ + vars.last().0 + "="@ + vars.last().1 + "\n"@
    }
}

/// The lines that tell what is added to the environment.
pub open spec fn environment_lines(extra_env: ExtraEnv) -> Seq<char> {
    match extra_env {
        ExtraEnv::Inherited => "Environment: (same)\n"@,
        _ => "Envionment:\n"@ + variable_lines(extra_env.spec_vars()),
    }
}

/// One line for each item, numbered from 0: two spaces, the label, the
/// number in square brackets, ` = `, the item.
pub open spec fn numbered_lines(label: Seq<char>, items: Seq<Seq<char>>) -> Seq<char>
    decreases items.len(),
{
    if items.len() == 0 {
        Seq::empty()
    } else {
        numbered_lines(label, items.drop_last()) + "  "@ + label + "["@ + decimal(
            (items.len() - 1) as nat,
        ) + "] = "@ + items.last() + "\n"@
    }
}

/// The texts of a list of strings.
pub open spec fn texts(items: Seq<String>) -> Seq<Seq<char>> {
    Seq::new(items.len(), |i: int| items[i]@)
}

/// The banner: a heading, the working directory, what is added to the
/// environment, and the arguments, one to a line.
pub open spec fn banner_text(cwd: Seq<char>, extra_env: ExtraEnv, command: Seq<Seq<char>>) -> Seq<char> {
    "══ Start ══\n"@ + "CWD: "@ + cwd + "\n"@ + environment_lines(extra_env) + "Arguments:\n"@
        + numbered_lines("argv"@, command)
}

/// The record of an invocation: the launcher's own arguments, the command
/// as it was parsed, and a closing line.
pub open spec fn last_run_text(arguments: Seq<Seq<char>>, command: Seq<Seq<char>>) -> Seq<char> {
    "Our arguments:\n"@ + numbered_lines("argv"@, arguments)
        + "The command we're to run, as parsed by `clap`:\n"@ + numbered_lines("cmd"@, command)
        + "Done.\n"@
}

/// Appends one line for each variable of the set.
fn push_variable_lines(out: &mut String, extra_env: &ExtraEnv)
    ensures
        final(out)@ == old(out)@ + variable_lines(extra_env.spec_vars()),
{
    let vars = extra_env.vars();
    let ghost all = extra_env.spec_vars();
    let mut i: usize = 0;
    assert(all.take(0) =~= Seq::<(Seq<char>, Seq<char>)>::empty());
    while i < vars.len()
        invariant
            i <= vars.len(),
            vars@.len() == all.len(),
            all == crate::resolver::pairs_view(vars@),
            out@ == old(out)@ + variable_lines(all.take(i as int)),
        decreases vars.len() - i,
    {
        let (name, value) = vars[i];
        out.append("  ");
        out.append(name);
        out.append("=");
        out.append(value);
        out.append("\n");
        proof {
            let upto = all.take(i + 1);
            assert(upto.drop_last() =~= all.take(i as int));
            assert(upto.last() == all[i as int]);
            assert(out@ =~= old(out)@ + variable_lines(upto));
        }
        i += 1;
    }
    assert(all.take(i as int) =~= all);
}

/// Appends one numbered line for each item.
fn push_numbered_lines(out: &mut String, label: &str, items: &Vec<String>)
    ensures
        final(out)@ == old(out)@ + numbered_lines(label@, texts(items@)),
{
    let ghost all = texts(items@);
    let mut i: usize = 0;
    assert(all.take(0) =~= Seq::<Seq<char>>::empty());
    while i < items.len()
        invariant
            i <= items.len(),
            all == texts(items@),
            out@ == old(out)@ + numbered_lines(label@, all.take(i as int)),
        decreases items.len() - i,
    {
        out.append("  ");
        out.append(label);
        out.append("[");
        push_decimal(out, i);
        out.append("] = ");
        out.append(items[i].as_str());
        out.append("\n");
        proof {
            let upto = all.take(i + 1);
            assert(upto.drop_last() =~= all.take(i as int));
            assert(upto.last() == items[i as int]@);
            assert(upto.len() - 1 == i);
            assert(out@ =~= old(out)@ + numbered_lines(label@, upto));
        }
        i += 1;
    }
    assert(all.take(i as int) =~= all);
}

/// Lays out the banner that is written before the child is spawned.
///
/// `cwd` is the working directory and `command` the arguments of the
/// command, each as it is to be shown.
pub fn print_cmd(cwd: &str, command: &Vec<String>, extra_env: &ExtraEnv) -> (banner: String)
    ensures
        banner@ == banner_text(cwd@, *extra_env, texts(command@)),
{
    let mut out = String::new();
    out.append("══ Start ══\n");
    out.append("CWD: ");
    out.append(cwd);
    out.append("\n");
    match extra_env {
        ExtraEnv::Inherited => {
            out.append("Environment: (same)\n");
        },
        _ => {
            out.append("Envionment:\n");
            push_variable_lines(&mut out, extra_env);
        },
    }
    out.append("Arguments:\n");
    push_numbered_lines(&mut out, "argv", command);
    assert(out@ =~= banner_text(cwd@, *extra_env, texts(command@)));
    out
}

/// Lays out the record of an invocation from the launcher's own arguments
/// and the parsed command, each as it is to be shown.
pub fn last_run_layout(arguments: &Vec<String>, command: &Vec<String>) -> (record: String)
    ensures
        record@ == last_run_text(texts(arguments@), texts(command@)),
{
    let mut out = String::new();
    out.append("Our arguments:\n");
    push_numbered_lines(&mut out, "argv", arguments);
    out.append("The command we're to run, as parsed by `clap`:\n");
    push_numbered_lines(&mut out, "cmd", command);
    out.append("Done.\n");
    assert(out@ =~= last_run_text(texts(arguments@), texts(command@)));
    out
}

/// What the formatter's `{:?}` gives for a string.
pub uninterp spec fn debug_text(text: Seq<char>) -> Seq<char>;

/// Each text as the formatter's `{:?}` gives it.
pub open spec fn debug_texts(items: Seq<Seq<char>>) -> Seq<Seq<char>> {
    Seq::new(items.len(), |i: int| debug_text(items[i]))
}

/// Shows a string as the formatter's `{:?}` does.
///
/// Calls `<str as core::fmt::Debug>::fmt` through `format!`. What it gives
/// depends on the string alone; the contract names it and says no more.
#[verifier::external_body]
fn debug_string(text: &str) -> (shown: String)
    ensures
        shown@ == debug_text(text@),
{
    format!("{:?}", text)
}

/// Shows each string as the formatter's `{:?}` does.
pub fn debug_strings(items: &Vec<String>) -> (shown: Vec<String>)
    ensures
        texts(shown@) == debug_texts(texts(items@)),
{
    let mut shown: Vec<String> = Vec::new();
    let mut i: usize = 0;
    while i < items.len()
        invariant
            i <= items.len(),
            shown@.len() == i,
            forall|k: int| 0 <= k < i ==> (#[trigger] shown@[k])@ == debug_text(items@[k]@),
        decreases items.len() - i,
    {
        shown.push(debug_string(items[i].as_str()));
        i += 1;
    }
    assert(texts(shown@) =~= debug_texts(texts(items@)));
    shown
}

/// The record of an invocation: the launcher's own arguments, shown as the
/// formatter's `{:?}` shows a string, and the parsed command, each argument
/// as it is to be shown.
pub fn last_run_record(arguments: &Vec<String>, command: &Vec<String>) -> (record: String)
    ensures
        record@ == last_run_text(debug_texts(texts(arguments@)), texts(command@)),
{
    let shown = debug_strings(arguments);
    last_run_layout(&shown, command)
}

} // verus!
