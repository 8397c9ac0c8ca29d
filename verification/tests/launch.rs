use on_the_gpu::launch::{
    exec_environment, os_str_to_cstring, os_strs_to_cstrings, plan, LaunchPlan, LaunchRequest,
    EXIT_REFUSED,
};
use on_the_gpu::resolver::{ConfigError, ExtraEnv, GpuMode};

fn args(items: &[&str]) -> Vec<Vec<u8>> {
    items.iter().map(|s| s.as_bytes().to_vec()).collect()
}

fn request(logs: bool, command: &[&str], gpu: Option<GpuMode>) -> LaunchRequest {
    LaunchRequest { game_name: "space-game".to_string(), logs, command: args(command), gpu }
}

#[test]
fn plan_refuses_a_request_without_a_command() {
    for logs in [false, true] {
        match plan(request(logs, &[], Some(GpuMode::Pvkrun))) {
            LaunchPlan::Refuse(error) => {
                assert_eq!(error, ConfigError::EmptyCommand);
                assert_eq!(error.message(), "Need at least 1 argument for the command to run.");
            }
            other => panic!("{other:?}"),
        }
    }
    assert_eq!(EXIT_REFUSED, 1);
}

#[test]
fn plan_supervises_where_a_log_is_asked_for() {
    match plan(request(true, &["g", "-x"], Some(GpuMode::Primusrun))) {
        LaunchPlan::Supervise { game_name, command } => {
            assert_eq!(game_name, "space-game");
            assert_eq!(command.final_argv(), &args(&["primusrun", "g", "-x"]));
            assert_eq!(command.extra_env(), ExtraEnv::Inherited);
        }
        other => panic!("{other:?}"),
    }
}

#[test]
fn plan_replaces_the_launcher_where_no_log_is_asked_for() {
    match plan(request(false, &["g", "-x"], Some(GpuMode::NoOffload))) {
        LaunchPlan::Replace { command } => {
            assert_eq!(command.final_argv(), &args(&["g", "-x"]));
            assert_eq!(command.extra_env(), ExtraEnv::Inherited);
        }
        other => panic!("{other:?}"),
    }
}

#[test]
fn plan_without_a_mode_sets_the_render_offload_variables() {
    match plan(request(false, &["g"], None)) {
        LaunchPlan::Replace { command } => {
            assert_eq!(command.final_argv(), &args(&["g"]));
            assert_eq!(command.extra_env(), ExtraEnv::NvPrimeRun);
        }
        other => panic!("{other:?}"),
    }
    match plan(request(true, &["g"], None)) {
        LaunchPlan::Supervise { command, .. } => {
            assert_eq!(command.extra_env(), ExtraEnv::NvPrimeRun);
        }
        other => panic!("{other:?}"),
    }
}

#[test]
fn exec_environment_is_not_built_where_nothing_is_added() {
    let inherited = vec![(b"HOME".to_vec(), b"/home/p".to_vec())];
    assert_eq!(exec_environment(&inherited, &ExtraEnv::Inherited), None);
    assert_eq!(exec_environment(&Vec::new(), &ExtraEnv::Inherited), None);
}

#[test]
fn exec_environment_puts_the_added_variables_last() {
    let inherited = vec![
        (b"HOME".to_vec(), b"/home/p".to_vec()),
        (b"EMPTY".to_vec(), b"".to_vec()),
        (vec![0xff], vec![0xfe, b'=']),
    ];
    assert_eq!(
        exec_environment(&inherited, &ExtraEnv::NvPrimeRun),
        Some(vec![
            b"HOME=/home/p".to_vec(),
            b"EMPTY=".to_vec(),
            vec![0xff, b'=', 0xfe, b'='],
            b"__NV_PRIME_RENDER_OFFLOAD=1".to_vec(),
            b"__VK_LAYER_NV_optimus=NVIDIA_only".to_vec(),
            b"__GLX_VENDOR_LIBRARY_NAME=nvidia".to_vec(),
        ])
    );
}

#[test]
fn exec_environment_keeps_a_name_that_occurs_twice() {
    let inherited = vec![(b"__NV_PRIME_RENDER_OFFLOAD".to_vec(), b"0".to_vec())];
    let entries = exec_environment(&inherited, &ExtraEnv::NvPrimeRun).unwrap();
    assert_eq!(entries.len(), 4);
    assert_eq!(entries[0], b"__NV_PRIME_RENDER_OFFLOAD=0".to_vec());
    assert_eq!(entries[1], b"__NV_PRIME_RENDER_OFFLOAD=1".to_vec());
}

#[test]
fn exec_environment_of_an_empty_environment() {
    let entries = exec_environment(&Vec::new(), &ExtraEnv::NvPrimeRun).unwrap();
    assert_eq!(entries.len(), 3);
}

#[test]
fn a_c_string_ends_with_a_zero_byte() {
    assert_eq!(os_str_to_cstring(b"g"), Some(b"g\0".to_vec()));
    assert_eq!(os_str_to_cstring(b""), Some(vec![0]));
    assert_eq!(os_str_to_cstring(&[0xff, 0x01]), Some(vec![0xff, 0x01, 0]));
}

#[test]
fn a_c_string_holds_no_zero_byte_inside() {
    assert_eq!(os_str_to_cstring(b"a\0b"), None);
    assert_eq!(os_str_to_cstring(b"\0"), None);
    assert_eq!(os_str_to_cstring(b"ab\0"), None);
}

#[test]
fn c_strings_of_a_list_are_made_of_each_or_not_at_all() {
    assert_eq!(
        os_strs_to_cstrings(&args(&["g", "", "-x"])),
        Some(vec![b"g\0".to_vec(), vec![0], b"-x\0".to_vec()])
    );
    assert_eq!(os_strs_to_cstrings(&Vec::new()), Some(Vec::new()));
    assert_eq!(os_strs_to_cstrings(&vec![b"g".to_vec(), b"a\0".to_vec()]), None);
}
