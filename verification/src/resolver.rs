//! Turning a requested offload mode and a command line into the argument
//! vector that is run and the variables added to its environment.

use vstd::prelude::*;
use vstd::string::StringSliceAdditionalSpecFns;
use vstd::utf8::encode_utf8;

verus! {

/// Whether and how the command is offloaded to the discrete GPU.
#[derive(Clone, Copy, Debug, PartialEq, Eq, Structural)]
pub enum GpuMode {
    /// Run the command as it is.
    NoOffload,
    /// Run the command with the render-offload variables set, as `prime-run`
    /// would, without calling `prime-run` itself.
    NvPrimeRun,
    /// Wrap the command in `pvkrun`.
    Pvkrun,
    /// Wrap the command in `primusrun`, the newer wrapper.
    Primusrun,
    /// Wrap the command in `optirun`, the older wrapper.
    Optirun,
}

/// The variables added to the child's environment.
#[derive(Clone, Copy, Debug, PartialEq, Eq, Structural)]
pub enum ExtraEnv {
    /// The environment is inherited unchanged.
    Inherited,
    /// The three render-offload variables.
    NvPrimeRun,
}

/// Why a launch request cannot be resolved.
#[derive(Clone, Copy, Debug, PartialEq, Eq, Structural)]
pub enum ConfigError {
    /// The command has no argument, so there is no program to run.
    EmptyCommand,
}

/// The byte strings held by a list of byte vectors.
pub open spec fn byte_strings(items: Seq<Vec<u8>>) -> Seq<Seq<u8>> {
    Seq::new(items.len(), |i: int| items[i]@)
}

/// The text of an optional string.
pub open spec fn option_text(text: Option<&'static str>) -> Option<Seq<char>> {
    match text {
        Some(t) => Some(t@),
        None => None,
    }
}

/// The text of a list of name and value pairs.
pub open spec fn pairs_view(pairs: Seq<(&'static str, &'static str)>) -> Seq<(Seq<char>, Seq<char>)> {
    Seq::new(pairs.len(), |i: int| (pairs[i].0@, pairs[i].1@))
}

impl ExtraEnv {
    /// The variables of this set, in the order in which they are applied.
    pub open spec fn spec_vars(self) -> Seq<(Seq<char>, Seq<char>)> {
        match self {
            ExtraEnv::Inherited => Seq::empty(),
            ExtraEnv::NvPrimeRun => seq![
                ("__NV_PRIME_RENDER_OFFLOAD"@, "1"@),
                ("__VK_LAYER_NV_optimus"@, "NVIDIA_only"@),
                ("__GLX_VENDOR_LIBRARY_NAME"@, "nvidia"@),
            ],
        }
    }

    /// The variables of this set as name and value pairs.
    pub fn vars(&self) -> (pairs: Vec<(&'static str, &'static str)>)
        ensures
            pairs_view(pairs@) == self.spec_vars(),
    {
        let mut pairs: Vec<(&'static str, &'static str)> = Vec::new();
        match self {
            ExtraEnv::Inherited => {},
            ExtraEnv::NvPrimeRun => {
                pairs.push(("__NV_PRIME_RENDER_OFFLOAD", "1"));
                pairs.push(("__VK_LAYER_NV_optimus", "NVIDIA_only"));
                pairs.push(("__GLX_VENDOR_LIBRARY_NAME", "nvidia"));
            },
        }
        assert(pairs_view(pairs@) =~= self.spec_vars());
        pairs
    }

    /// Whether the set holds no variable.
    pub fn is_inherited(&self) -> (none: bool)
        ensures
            none == (*self == ExtraEnv::Inherited),
            none == (self.spec_vars().len() == 0),
    {
        match self {
            ExtraEnv::Inherited => true,
            ExtraEnv::NvPrimeRun => false,
        }
    }
}

/// The variables of a set have names of their own: no name occurs twice, so
/// the set maps each name to one value.
pub proof fn lemma_variable_names_are_distinct(extra_env: ExtraEnv)
    ensures
        forall|i: int, j: int|
            0 <= i < j < extra_env.spec_vars().len() ==> (#[trigger] extra_env.spec_vars()[i]).0 != (
            #[trigger] extra_env.spec_vars()[j]).0,
{
    reveal_strlit("__NV_PRIME_RENDER_OFFLOAD");
    reveal_strlit("__VK_LAYER_NV_optimus");
    reveal_strlit("__GLX_VENDOR_LIBRARY_NAME");
    let vars = extra_env.spec_vars();
    assert forall|i: int, j: int| 0 <= i < j < vars.len() implies (#[trigger] vars[i]).0 != (
    #[trigger] vars[j]).0 by {
        assert(vars[i].0[2] != vars[j].0[2]);
    }
}

impl GpuMode {
    /// The mode that stands for an absent selection.
    pub open spec fn spec_or_default(mode: Option<GpuMode>) -> GpuMode {
        match mode {
            Some(m) => m,
            None => GpuMode::NvPrimeRun,
        }
    }

    /// The selected mode, or the render-offload variables when none is
    /// selected.
    pub fn or_default(mode: Option<GpuMode>) -> (chosen: GpuMode)
        ensures
            chosen == Self::spec_or_default(mode),
    {
        match mode {
            Some(m) => m,
            None => GpuMode::NvPrimeRun,
        }
    }

    /// The name of the wrapper binary, for the modes that run the command
    /// under a wrapper.
    pub open spec fn spec_wrapper_name(self) -> Option<Seq<char>> {
        match self {
            GpuMode::NoOffload => None,
            GpuMode::NvPrimeRun => None,
            GpuMode::Pvkrun => Some("pvkrun"@),
            GpuMode::Primusrun => Some("primusrun"@),
            GpuMode::Optirun => Some("optirun"@),
        }
    }

    /// The bytes of the wrapper binary's name, for the modes that run the
    /// command under a wrapper.
    pub open spec fn spec_wrapper(self) -> Option<Seq<u8>> {
        match self.spec_wrapper_name() {
            Some(name) => Some(encode_utf8(name)),
            None => None,
        }
    }

    /// The wrapper binary that this mode puts in front of the command.
    pub fn wrapper(self) -> (name: Option<&'static str>)
        ensures
            option_text(name) == self.spec_wrapper_name(),
    {
        match self {
            GpuMode::NoOffload => None,
            GpuMode::NvPrimeRun => None,
            GpuMode::Pvkrun => Some("pvkrun"),
            GpuMode::Primusrun => Some("primusrun"),
            GpuMode::Optirun => Some("optirun"),
        }
    }

    /// The variables that this mode adds to the child's environment.
    pub open spec fn spec_extra_env(self) -> ExtraEnv {
        match self {
            GpuMode::NvPrimeRun => ExtraEnv::NvPrimeRun,
            _ => ExtraEnv::Inherited,
        }
    }

    /// The variables that this mode adds to the child's environment.
    pub fn extra_env(self) -> (env: ExtraEnv)
        ensures
            env == self.spec_extra_env(),
    {
        match self {
            GpuMode::NvPrimeRun => ExtraEnv::NvPrimeRun,
            _ => ExtraEnv::Inherited,
        }
    }
}

/// The argument vector that is run for `argv` under `mode`: the wrapper's
/// name first where the mode has one, then `argv` unchanged.
pub open spec fn resolved_argv(mode: GpuMode, argv: Seq<Seq<u8>>) -> Seq<Seq<u8>> {
    match mode.spec_wrapper() {
        Some(name) => seq![name] + argv,
        None => argv,
    }
}

/// A command ready to be run: its argument vector, which starts with the
/// program, and the variables added to its environment.
#[derive(Debug)]
pub struct ResolvedCommand {
    final_argv: Vec<Vec<u8>>,
    extra_env: ExtraEnv,
}

impl ResolvedCommand {
    #[verifier::type_invariant]
    spec fn well_formed(self) -> bool {
        self.final_argv@.len() > 0
    }

    /// The arguments as byte strings, the program first.
    pub closed spec fn spec_argv(self) -> Seq<Seq<u8>> {
        byte_strings(self.final_argv@)
    }

    /// The variables added to the environment.
    pub closed spec fn spec_extra_env(self) -> ExtraEnv {
        self.extra_env
    }

    /// The argument vector, the program first. It is never empty.
    pub fn final_argv(&self) -> (argv: &Vec<Vec<u8>>)
        ensures
            byte_strings(argv@) == self.spec_argv(),
            argv@.len() > 0,
    {
        proof {
            use_type_invariant(self);
        }
        &self.final_argv
    }

    /// The program to run: the first argument.
    pub fn program(&self) -> (program: &Vec<u8>)
        ensures
            self.spec_argv().len() > 0,
            program@ == self.spec_argv()[0],
    {
        proof {
            use_type_invariant(self);
        }
        &self.final_argv[0]
    }

    /// The variables added to the environment.
    pub fn extra_env(&self) -> (env: ExtraEnv)
        ensures
            env == self.spec_extra_env(),
    {
        self.extra_env
    }
}

/// Resolves a command line under an offload mode.
///
/// An empty command is refused. Otherwise the result holds the wrapper's
/// name followed by the command for the wrapper modes, the command alone for
/// the others, and the variables of the mode.
pub fn resolve(mode: GpuMode, argv: Vec<Vec<u8>>) -> (resolved: Result<ResolvedCommand, ConfigError>)
    ensures
        argv@.len() == 0 <==> resolved == Err::<ResolvedCommand, ConfigError>(ConfigError::EmptyCommand),
        argv@.len() > 0 <==> resolved is Ok,
        resolved matches Ok(command) ==> {
            &&& command.spec_argv() == resolved_argv(mode, byte_strings(argv@))
            &&& command.spec_extra_env() == mode.spec_extra_env()
        },
{
    if argv.len() == 0 {
        return Err(ConfigError::EmptyCommand);
    }
    let extra_env = mode.extra_env();
    match mode.wrapper() {
        None => {
            Ok(ResolvedCommand { final_argv: argv, extra_env })
        },
        Some(name) => {
            let mut final_argv: Vec<Vec<u8>> = Vec::new();
            final_argv.push(name.as_bytes_vec());
            let ghost given = byte_strings(argv@);
            let mut argv = argv;
            final_argv.append(&mut argv);
            assert(byte_strings(final_argv@) =~= seq![name.spec_bytes()] + given);
            Ok(ResolvedCommand { final_argv, extra_env })
        },
    }
}

} // verus!
