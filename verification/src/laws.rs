//! Properties that relate several builders, or that hold of every input.

use vstd::prelude::*;

use crate::error::BuildError;
use crate::instruction::{Instruction, ONBUILD};
use crate::instruction_builder::{
    CmdBuilder, CmdExecBuilder, EntrypointBuilder, EntrypointExecBuilder, OnbuildBuilder,
    RunExecBuilder, ShellBuilder,
};
use crate::text::{decimal, digit, opt_list, opt_view, views};

verus! {

/// The exec forms of `RUN`, `ENTRYPOINT`, `SHELL` and `CMD` (with an
/// executable) render the same text for the same executable and parameters.
pub proof fn exec_forms_agree(executable: String, params: Option<Vec<String>>)
    ensures
        (RunExecBuilder { executable, params }).spec_value() == (EntrypointExecBuilder {
            executable,
            params,
        }).spec_value(),
        (RunExecBuilder { executable, params }).spec_value() == (ShellBuilder {
            executable,
            params,
        }).spec_value(),
        (RunExecBuilder { executable, params }).spec_value() == (CmdExecBuilder {
            executable: Some(executable),
            params,
        }).spec_value(),
{
    let c = CmdExecBuilder { executable: Some(executable), params };
    assert(c.items() =~= seq![executable@] + opt_list(params));
}

/// The shell forms of `CMD` and `ENTRYPOINT` render the same text for the
/// same command and parameters.
pub proof fn shell_forms_agree(command: String, params: Option<Vec<String>>)
    ensures
        (CmdBuilder { command, params }).spec_value() == (EntrypointBuilder {
            command,
            params,
        }).spec_value(),
{
}

/// An empty list of parameters renders as no parameters at all, in every
/// form that takes parameters.
pub proof fn empty_params_are_no_params(executable: String, empty: Vec<String>)
    requires
        empty@.len() == 0,
    ensures
        (RunExecBuilder { executable, params: Some(empty) }).spec_value() == (RunExecBuilder {
            executable,
            params: None,
        }).spec_value(),
        (EntrypointExecBuilder { executable, params: Some(empty) }).spec_value() == (
        EntrypointExecBuilder { executable, params: None }).spec_value(),
        (ShellBuilder { executable, params: Some(empty) }).spec_value() == (ShellBuilder {
            executable,
            params: None,
        }).spec_value(),
        (CmdExecBuilder { executable: Some(executable), params: Some(empty) }).spec_value() == (
        CmdExecBuilder { executable: Some(executable), params: None }).spec_value(),
        (CmdBuilder { command: executable, params: Some(empty) }).spec_value() == (CmdBuilder {
            command: executable,
            params: None,
        }).spec_value(),
        (EntrypointBuilder { command: executable, params: Some(empty) }).spec_value() == (
        EntrypointBuilder { command: executable, params: None }).spec_value(),
{
    assert(opt_list(Some(empty)) =~= opt_list(None));
}

/// Exec-form `CMD` is refused exactly when it has neither an executable nor
/// a parameter.
pub proof fn cmd_exec_refused_iff_empty(b: CmdExecBuilder)
    ensures
        b.spec_value() is Err <==> (b.executable is None && opt_list(b.params).len() == 0),
        opt_list(b.params).len() == 0 <==> (b.params is None || (b.params matches Some(p)
            && p@.len() == 0)),
        b.spec_value() is Err ==> b.spec_value() == Err::<Seq<char>, BuildError>(
            BuildError::EmptyCmd,
        ),
{
}

/// `ONBUILD` renders as `ONBUILD ` followed by the line of the instruction
/// it triggers, for every instruction other than `ONBUILD` and `FROM`.
pub proof fn onbuild_wraps_line(instruction: Instruction)
    requires
        !(instruction is ONBUILD),
        !(instruction is FROM),
    ensures
        (OnbuildBuilder { instruction }).spec_value() == Ok::<Seq<char>, BuildError>(
            instruction.rendered(),
        ),
        forall|o: ONBUILD|
            o.value@ == instruction.rendered() ==> #[trigger] o.rendered() == "ONBUILD "@
                + instruction.rendered(),
{
}

/// The list reached by adding each item of `items`, in order, after `list`.
pub open spec fn added_one_at_a_time(list: Seq<Seq<char>>, items: Seq<Seq<char>>) -> Seq<
    Seq<char>,
>
    decreases items.len(),
{
    if items.len() == 0 {
        list
    } else {
        added_one_at_a_time(list.push(items[0]), items.drop_first())
    }
}

/// Adding items one at a time after a list gives the list followed by the
/// items: `param` called for each item builds what `params` does with all of
/// them, and so for `command`, `src` and `path`.
pub proof fn one_at_a_time_is_all_at_once(list: Seq<Seq<char>>, items: Seq<Seq<char>>)
    ensures
        added_one_at_a_time(list, items) == list + items,
    decreases items.len(),
{
    if items.len() > 0 {
        one_at_a_time_is_all_at_once(list.push(items[0]), items.drop_first());
        assert(list.push(items[0]) + items.drop_first() =~= list + items);
    }
}

/// The number that a sequence of decimal digits denotes.
pub open spec fn digits_value(s: Seq<char>) -> nat
    decreases s.len(),
{
    if s.len() == 0 {
        0
    } else {
        digits_value(s.drop_last()) * 10 + digit_value(s.last())
    }
}

/// The value of a decimal digit character.
pub open spec fn digit_value(c: char) -> nat {
    if c == '1' {
        1
    } else if c == '2' {
        2
    } else if c == '3' {
        3
    } else if c == '4' {
        4
    } else if c == '5' {
        5
    } else if c == '6' {
        6
    } else if c == '7' {
        7
    } else if c == '8' {
        8
    } else if c == '9' {
        9
    } else {
        0
    }
}

/// The decimal text of a number reads back as that number, and it has a
/// leading zero only when the number is zero.
pub proof fn decimal_reads_back(n: nat)
    ensures
        digits_value(decimal(n)) == n,
        decimal(n).len() >= 1,
        decimal(n)[0] == '0' ==> n == 0,
    decreases n,
{
    if n >= 10 {
        decimal_reads_back(n / 10);
        let d = decimal(n);
        assert(d.drop_last() =~= decimal(n / 10));
        assert(d.last() == digit(n % 10));
        assert(digit_value(digit(n % 10)) == n % 10);
        assert(digits_value(d) == digits_value(decimal(n / 10)) * 10 + n % 10);
        assert(n == (n / 10) * 10 + n % 10);
        assert(d[0] == decimal(n / 10)[0]);
        assert(n / 10 > 0);
    } else {
        let d = decimal(n);
        assert(d.drop_last() =~= Seq::<char>::empty());
        assert(digits_value(Seq::<char>::empty()) == 0);
        assert(digit_value(digit(n)) == n);
    }
}

} // verus!
