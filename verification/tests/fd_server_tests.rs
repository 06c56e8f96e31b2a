use composite_image::fd_path::decimal_string;
use composite_image::fd_server::FdServerConfig;

#[test]
fn empty_config_names_only_the_ready_descriptor() {
    let plan = FdServerConfig::default().spawn_plan(7);
    assert_eq!(plan.args, vec!["/apex/com.android.virt/bin/fd_server", "--ready-fd", "7"]);
    assert_eq!(plan.inheritable_fds, vec![7]);
}

#[test]
fn each_descriptor_follows_its_flag() {
    let config = FdServerConfig {
        ro_file_fds: vec![3, 4],
        rw_file_fds: vec![5],
        ro_dir_fds: vec![10, 11, 12],
        rw_dir_fds: vec![100],
    };
    let plan = config.spawn_plan(42);
    assert_eq!(
        plan.args,
        vec![
            "/apex/com.android.virt/bin/fd_server",
            "--ro-fds",
            "3",
            "--ro-fds",
            "4",
            "--rw-fds",
            "5",
            "--ro-dirs",
            "10",
            "--ro-dirs",
            "11",
            "--ro-dirs",
            "12",
            "--rw-dirs",
            "100",
            "--ready-fd",
            "42",
        ]
    );
    assert_eq!(plan.inheritable_fds, vec![3, 4, 5, 10, 11, 12, 100, 42]);
}

#[test]
fn a_descriptor_named_twice_is_inherited_twice() {
    let config = FdServerConfig {
        ro_file_fds: vec![3],
        rw_file_fds: vec![3],
        ro_dir_fds: vec![],
        rw_dir_fds: vec![],
    };
    let plan = config.spawn_plan(3);
    assert_eq!(
        plan.args,
        vec![
            "/apex/com.android.virt/bin/fd_server",
            "--ro-fds",
            "3",
            "--rw-fds",
            "3",
            "--ready-fd",
            "3",
        ]
    );
    assert_eq!(plan.inheritable_fds, vec![3, 3, 3]);
}

#[test]
fn numbers_in_decimal() {
    assert_eq!(decimal_string(0), "0");
    assert_eq!(decimal_string(10), "10");
    assert_eq!(decimal_string(907), "907");
    assert_eq!(decimal_string(-1), "-1");
    assert_eq!(decimal_string(i32::MAX), "2147483647");
    assert_eq!(decimal_string(i32::MIN), "-2147483648");
}
