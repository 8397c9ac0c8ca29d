//! From a launch request to what is done with it: refuse it, supervise the
//! command with a log, or let the command take the place of the launcher.

use crate::resolver::{byte_strings, resolve, resolved_argv, ConfigError, ExtraEnv, GpuMode, ResolvedCommand};
use vstd::prelude::*;
use vstd::slice::slice_to_vec;
use vstd::utf8::encode_utf8;

verus! {

/// The exit status of a launcher that refuses its request.
pub const EXIT_REFUSED: i32 = 1;

/// What the launcher is asked to do.
#[derive(Debug)]
pub struct LaunchRequest {
    /// A name for the game; the log file is named after it.
    pub game_name: String,
    /// Whether the command's output is logged.
    pub logs: bool,
    /// The command to run, the program first.
    pub command: Vec<Vec<u8>>,
    /// Whether and how the command is offloaded; absent, the render-offload
    /// variables are set.
    pub gpu: Option<GpuMode>,
}

/// What the launcher does with a request.
#[derive(Debug)]
pub enum LaunchPlan {
    /// Tell why and exit with `EXIT_REFUSED`.
    Refuse(ConfigError),
    /// Run the command as a child, with its output relayed to the live
    /// stream and to a log named after the game.
    Supervise { game_name: String, command: ResolvedCommand },
    /// Show the banner and let the command take the place of the launcher.
    Replace { command: ResolvedCommand },
}

impl ConfigError {
    /// What the operator is told.
    pub fn message(&self) -> (text: &'static str)
        ensures
            text@ == "Need at least 1 argument for the command to run."@,
    {
        match self {
            ConfigError::EmptyCommand => "Need at least 1 argument for the command to run.",
        }
    }
}

/// Whether `command` is what `request` resolves to.
pub open spec fn resolves_to(request: LaunchRequest, command: ResolvedCommand) -> bool {
    let mode = GpuMode::spec_or_default(request.gpu);
    &&& command.spec_argv() == resolved_argv(mode, byte_strings(request.command@))
    &&& command.spec_extra_env() == mode.spec_extra_env()
}

/// Decides what is done with a request.
///
/// A request without a command is refused. The command is resolved under
/// the requested mode, or under the render-offload variables where none is
/// requested; it is supervised where a log is asked for and takes the
/// launcher's place otherwise.
pub fn plan(request: LaunchRequest) -> (plan: LaunchPlan)
    ensures
        request.command@.len() == 0 <==> plan is Refuse,
        plan matches LaunchPlan::Refuse(error) ==> error == ConfigError::EmptyCommand,
        request.command@.len() > 0 && request.logs <==> plan is Supervise,
        request.command@.len() > 0 && !request.logs <==> plan is Replace,
        plan matches LaunchPlan::Supervise { game_name, command } ==> game_name@ == request.game_name@
            && resolves_to(request, command),
        plan matches LaunchPlan::Replace { command } ==> resolves_to(request, command),
{
    let LaunchRequest { game_name, logs, command, gpu } = request;
    let mode = GpuMode::or_default(gpu);
    match resolve(mode, command) {
        Err(error) => LaunchPlan::Refuse(error),
        Ok(command) => {
            if logs {
                LaunchPlan::Supervise { game_name, command }
            } else {
                LaunchPlan::Replace { command }
            }
        },
    }
}

/// The byte that parts a variable's name from its value.
pub const EQUALS: u8 = 0x3d;

/// One entry of an environment: the name, `=`, the value.
pub open spec fn env_entry(name: Seq<u8>, value: Seq<u8>) -> Seq<u8> {
    name + seq![EQUALS] + value
}

/// The entries of the inherited variables, in their order.
pub open spec fn inherited_entries(vars: Seq<(Vec<u8>, Vec<u8>)>) -> Seq<Seq<u8>> {
    Seq::new(vars.len(), |i: int| env_entry(vars[i].0@, vars[i].1@))
}

/// The entries of the added variables, in their order.
pub open spec fn extra_entries(vars: Seq<(Seq<char>, Seq<char>)>) -> Seq<Seq<u8>> {
    Seq::new(vars.len(), |i: int| env_entry(encode_utf8(vars[i].0), encode_utf8(vars[i].1)))
}

/// The environment of a command that takes the launcher's place: nothing to
/// build where no variable is added, else the inherited entries followed
/// by the added ones, none left out where a name occurs twice.
pub open spec fn exec_environment_entries(
    inherited: Seq<(Vec<u8>, Vec<u8>)>,
    extra_env: ExtraEnv,
) -> Option<Seq<Seq<u8>>> {
    match extra_env {
        ExtraEnv::Inherited => None,
        _ => Some(inherited_entries(inherited) + extra_entries(extra_env.spec_vars())),
    }
}

/// The byte strings of an optional list of byte vectors.
pub open spec fn option_byte_strings(items: Option<Vec<Vec<u8>>>) -> Option<Seq<Seq<u8>>> {
    match items {
        Some(list) => Some(byte_strings(list@)),
        None => None,
    }
}

/// Makes one entry of an environment.
fn entry(name: &[u8], value: &[u8]) -> (entry: Vec<u8>)
    ensures
        entry@ == env_entry(name@, value@),
{
    let mut entry = slice_to_vec(name);
    entry.push(EQUALS);
    let mut rest = slice_to_vec(value);
    entry.append(&mut rest);
    entry
}

/// Builds the environment handed to a command that takes the launcher's
/// place, from the launcher's own variables and the added ones.
///
/// Where no variable is added there is nothing to build and the command
/// inherits the environment as it is.
pub fn exec_environment(inherited: &Vec<(Vec<u8>, Vec<u8>)>, extra_env: &ExtraEnv) -> (entries: Option<
    Vec<Vec<u8>>,
>)
    ensures
        option_byte_strings(entries) == exec_environment_entries(inherited@, *extra_env),
{
    if extra_env.is_inherited() {
        return None;
    }
    let mut entries: Vec<Vec<u8>> = Vec::new();
    let mut i: usize = 0;
    while i < inherited.len()
        invariant
            i <= inherited.len(),
            entries@.len() == i,
            forall|k: int|
                0 <= k < i ==> (#[trigger] entries@[k])@ == env_entry(inherited@[k].0@, inherited@[k].1@),
        decreases inherited.len() - i,
    {
        let made = entry(inherited[i].0.as_slice(), inherited[i].1.as_slice());
        entries.push(made);
        i += 1;
    }
    let vars = extra_env.vars();
    let ghost added = extra_env.spec_vars();
    let ghost kept = inherited@.len();
    let mut j: usize = 0;
    while j < vars.len()
        invariant
            j <= vars.len(),
            kept == inherited@.len(),
            added == crate::resolver::pairs_view(vars@),
            entries@.len() == kept + j,
            forall|k: int|
                0 <= k < kept ==> (#[trigger] entries@[k])@ == env_entry(
                    inherited@[k].0@,
                    inherited@[k].1@,
                ),
            forall|k: int|
                0 <= k < j ==> (#[trigger] entries@[kept + k])@ == env_entry(
                    encode_utf8(added[k].0),
                    encode_utf8(added[k].1),
                ),
        decreases vars.len() - j,
    {
        let (name, value) = vars[j];
        let made = entry(name.as_bytes(), value.as_bytes());
        let ghost before = entries@;
        entries.push(made);
        assert forall|k: int| 0 <= k < j + 1 implies (#[trigger] entries@[kept + k])@ == env_entry(
            encode_utf8(added[k].0),
            encode_utf8(added[k].1),
        ) by {
            if k < j {
                assert(entries@[kept + k] == before[kept + k]);
            }
        }
        j += 1;
    }
    proof {
        let all = inherited_entries(inherited@) + extra_entries(added);
        assert forall|k: int| 0 <= k < all.len() implies byte_strings(entries@)[k] == all[k] by {
            if k >= kept {
                assert(entries@[kept + (k - kept)]@ == all[k]);
            }
        }
        assert(byte_strings(entries@) =~= all);
    }
    Some(entries)
}

/// Whether no item holds a zero byte.
pub open spec fn free_of_nul(items: Seq<Seq<u8>>) -> bool {
    forall|i: int| 0 <= i < items.len() ==> !(#[trigger] items[i]).contains(0u8)
}

/// Each item followed by a zero byte.
pub open spec fn terminated(items: Seq<Seq<u8>>) -> Seq<Seq<u8>> {
    Seq::new(items.len(), |i: int| items[i] + seq![0u8])
}

/// The bytes of an optional byte vector.
pub open spec fn option_bytes(bytes: Option<Vec<u8>>) -> Option<Seq<u8>> {
    match bytes {
        Some(b) => Some(b@),
        None => None,
    }
}

/// The bytes of the C string of a system string: the string followed by a
/// zero byte. A string that holds a zero byte has no C string and gives
/// nothing.
pub fn os_str_to_cstring(bytes: &[u8]) -> (terminated: Option<Vec<u8>>)
    ensures
        option_bytes(terminated) == (if bytes@.contains(0u8) {
            None
        } else {
            Some(bytes@ + seq![0u8])
        }),
{
    let mut i: usize = 0;
    while i < bytes.len()
        invariant
            i <= bytes.len(),
            forall|k: int| 0 <= k < i ==> bytes@[k] != 0u8,
        decreases bytes.len() - i,
    {
        if bytes[i] == 0 {
            assert(bytes@.contains(0u8));
            return None;
        }
        i += 1;
    }
    let mut terminated = slice_to_vec(bytes);
    terminated.push(0);
    Some(terminated)
}

/// The bytes of the C string of every string of a list, or nothing where
/// one of them holds a zero byte.
pub fn os_strs_to_cstrings(items: &Vec<Vec<u8>>) -> (all: Option<Vec<Vec<u8>>>)
    ensures
        option_byte_strings(all) == (if free_of_nul(byte_strings(items@)) {
            Some(terminated(byte_strings(items@)))
        } else {
            None
        }),
{
    let mut list: Vec<Vec<u8>> = Vec::new();
    let mut i: usize = 0;
    while i < items.len()
        invariant
            i <= items.len(),
            list@.len() == i,
            forall|k: int| 0 <= k < i ==> !(#[trigger] items@[k])@.contains(0u8),
            forall|k: int| 0 <= k < i ==> (#[trigger] list@[k])@ == items@[k]@ + seq![0u8],
        decreases items.len() - i,
    {
        match os_str_to_cstring(items[i].as_slice()) {
            None => {
                assert(byte_strings(items@)[i as int].contains(0u8));
                return None;
            },
            Some(t) => {
                list.push(t);
            },
        }
        i += 1;
    }
    assert(byte_strings(list@) =~= terminated(byte_strings(items@)));
    assert forall|k: int| 0 <= k < items@.len() implies !(#[trigger] byte_strings(items@)[k]).contains(
        0u8,
    ) by {
        assert(!items@[k]@.contains(0u8));
    }
    Some(list)
}

} // verus!
