use fancontroller::daemon::{
    beat, curves_to_apply, daemon_pid, has_flag, is_root, needs_setup, setup_permissions,
    DAEMON_FLAG, SUDOERS_FILE, UDEV_RULES_FILE,
};

fn strings(list: &[&str]) -> Vec<String> {
    list.iter().map(|s| s.to_string()).collect()
}

#[test]
fn root_is_told_by_the_second_word_of_the_uid_line() {
    assert!(is_root(Some("Name:\tsh\nUid:\t0\t0\t0\t0\nGid:\t0\n")));
    assert!(!is_root(Some("Name:\tsh\nUid:\t1000\t0\t0\t0\n")));
    assert!(is_root(Some("Uid: 0\r\n")));
    assert!(!is_root(Some("xUid:\t0\n")));
    assert!(!is_root(Some("Uid:\n")));
    assert!(!is_root(Some("")));
    assert!(!is_root(None));
}

#[test]
fn only_the_first_uid_line_counts() {
    assert!(!is_root(Some("Uid:\t7\nUid:\t0\n")));
    assert!(!is_root(Some("Uid:0 1\n")));
    assert!(is_root(Some("Uid:x 0\n")));
}

#[test]
fn pid_is_trimmed_and_parsed() {
    assert_eq!(daemon_pid(" 4711\n"), Some(4711));
    assert_eq!(daemon_pid("+12"), Some(12));
    assert_eq!(daemon_pid("4294967295"), Some(u32::MAX));
    assert_eq!(daemon_pid("4294967296"), None);
    assert_eq!(daemon_pid("-1"), None);
    assert_eq!(daemon_pid("12 34"), None);
    assert_eq!(daemon_pid(""), None);
    assert_eq!(daemon_pid("\u{2003}8\u{a0}"), Some(8));
}

#[test]
fn every_third_beat_scans() {
    let mut ticks = 0;
    let mut scans = Vec::new();
    for _ in 0..7 {
        let (scan, next) = beat(ticks);
        scans.push(scan);
        ticks = next;
    }
    assert_eq!(scans, vec![true, false, false, true, false, false, true]);
    assert_eq!(beat(u32::MAX), (true, 0));
}

#[test]
fn curves_need_two_points() {
    let profile = vec![
        ("a".to_string(), vec![1u8]),
        ("b".to_string(), vec![1, 2]),
        ("c".to_string(), vec![]),
        ("d".to_string(), vec![3, 4, 5]),
    ];
    let expected = vec![("b".to_string(), vec![1, 2]), ("d".to_string(), vec![3, 4, 5])];
    assert_eq!(curves_to_apply(profile), expected);
}

#[test]
fn flags_are_whole_arguments() {
    assert!(has_flag(&strings(&["fancontroller", "--daemon"]), DAEMON_FLAG));
    assert!(!has_flag(&strings(&["fancontroller", "--daemonize"]), DAEMON_FLAG));
    assert!(!has_flag(&strings(&[]), DAEMON_FLAG));
}

#[test]
fn setup_is_for_users_without_rules() {
    assert!(needs_setup(false, false));
    assert!(!needs_setup(true, false));
    assert!(!needs_setup(false, true));
    assert!(!needs_setup(true, true));
}

#[test]
fn setup_commands_in_order() {
    let steps = setup_permissions(Some("ann"), Some("/opt/fan"));
    let args: Vec<Vec<String>> = steps.iter().map(|s| s.args.clone()).collect();
    assert_eq!(
        args,
        vec![
            strings(&["groupadd", "-f", "hwmon"]),
            strings(&["usermod", "-aG", "hwmon", "ann"]),
            strings(&["tee", "/etc/udev/rules.d/60-fancontroller.rules"]),
            strings(&[
                "sh",
                "-c",
                "udevadm control --reload-rules && udevadm trigger --subsystem-match=hwmon",
            ]),
            strings(&["tee", "/etc/sudoers.d/fancontroller"]),
            strings(&["chmod", "0440", "/etc/sudoers.d/fancontroller"]),
        ]
    );
    assert_eq!(UDEV_RULES_FILE, "/etc/udev/rules.d/60-fancontroller.rules");
    assert_eq!(SUDOERS_FILE, "/etc/sudoers.d/fancontroller");
    let inputs: Vec<Option<&str>> = steps.iter().map(|s| s.input.as_deref()).collect();
    assert_eq!(
        inputs,
        vec![
            None,
            None,
            Some(
                "SUBSYSTEM==\"hwmon\", KERNEL==\"hwmon[0-9]*\", \
                 ACTION==\"add\", GROUP=\"hwmon\", MODE=\"0660\"\n"
            ),
            None,
            Some(
                "ann ALL=(ALL) NOPASSWD: /opt/fan --gpu-set *\n\
                 ann ALL=(ALL) NOPASSWD: /opt/fan --gpu-reset *\n"
            ),
            None,
        ]
    );
}

#[test]
fn setup_defaults() {
    let steps = setup_permissions(None, None);
    assert_eq!(steps[1].args[3], "ALL");
    assert_eq!(
        steps[4].input.as_deref(),
        Some(
            "ALL ALL=(ALL) NOPASSWD: /usr/local/bin/fancontroller --gpu-set *\n\
             ALL ALL=(ALL) NOPASSWD: /usr/local/bin/fancontroller --gpu-reset *\n"
        )
    );
}
