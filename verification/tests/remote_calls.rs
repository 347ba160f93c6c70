use systemd_bridge::error::{BridgeError, ErrorKind};
use systemd_bridge::proxy::{
    Arguments, CallKind, RemoteCall, Reply, ReplyShape, LOGIN_MANAGER_INTERFACE, LOGIN_PATH,
    LOGIN_SERVICE, SERVICE_MANAGER_INTERFACE, SYSTEMD_PATH, SYSTEMD_SERVICE, UNEXPECTED_REPLY,
    UNIT_INTERFACE,
};
use systemd_bridge::{Job, LoginManager, ServiceManager, Unit};

fn manager_call(member: &str, arguments: Arguments) -> RemoteCall {
    RemoteCall {
        destination: "org.freedesktop.systemd1".to_string(),
        path: "/org/freedesktop/systemd1".to_string(),
        interface: "org.freedesktop.systemd1.Manager".to_string(),
        member: member.to_string(),
        kind: CallKind::Method,
        arguments,
        expects: ReplyShape::ObjectPath,
    }
}

fn unit_and_mode(unit: &str, mode: &str) -> Arguments {
    Arguments::UnitAndMode { unit: unit.to_string(), mode: mode.to_string() }
}

fn unexpected() -> BridgeError {
    BridgeError {
        kind: ErrorKind::Conversion,
        detail: "Unexpected reply from the system bus".to_string(),
    }
}

fn remote(message: &str) -> BridgeError {
    BridgeError { kind: ErrorKind::RemoteCall, detail: message.to_string() }
}

#[test]
fn bus_coordinates_are_those_of_the_remote_interfaces() {
    assert_eq!(SYSTEMD_SERVICE, "org.freedesktop.systemd1");
    assert_eq!(SYSTEMD_PATH, "/org/freedesktop/systemd1");
    assert_eq!(SERVICE_MANAGER_INTERFACE, "org.freedesktop.systemd1.Manager");
    assert_eq!(UNIT_INTERFACE, "org.freedesktop.systemd1.Unit");
    assert_eq!(LOGIN_SERVICE, "org.freedesktop.login1");
    assert_eq!(LOGIN_PATH, "/org/freedesktop/login1");
    assert_eq!(LOGIN_MANAGER_INTERFACE, "org.freedesktop.login1.Manager");
    assert_eq!(UNEXPECTED_REPLY, "Unexpected reply from the system bus");
}

#[test]
fn get_unit_is_a_manager_method_with_the_unit_name() {
    let call = ServiceManager.get_unit("sshd.service");
    assert_eq!(
        call,
        manager_call("GetUnit", Arguments::Unit { unit: "sshd.service".to_string() })
    );
}

#[test]
fn start_unit_carries_name_and_mode() {
    let call = ServiceManager.start_unit("a.service", "replace");
    assert_eq!(call, manager_call("StartUnit", unit_and_mode("a.service", "replace")));
}

#[test]
fn stop_unit_carries_name_and_mode() {
    let call = ServiceManager.stop_unit("a.service", "fail");
    assert_eq!(call, manager_call("StopUnit", unit_and_mode("a.service", "fail")));
}

#[test]
fn restart_unit_carries_name_and_mode() {
    let call = ServiceManager.restart_unit("a.service", "replace");
    assert_eq!(call, manager_call("RestartUnit", unit_and_mode("a.service", "replace")));
}

#[test]
fn mode_is_not_validated() {
    let call = ServiceManager.start_unit("a.service", "no such mode");
    assert_eq!(call.arguments, unit_and_mode("a.service", "no such mode"));
    let call = ServiceManager.stop_unit("", "");
    assert_eq!(call.arguments, unit_and_mode("", ""));
}

#[test]
fn active_state_is_a_property_read_on_the_unit_object() {
    let unit = Unit::new("/org/freedesktop/systemd1/unit/sshd_2eservice".to_string());
    assert_eq!(unit.path(), "/org/freedesktop/systemd1/unit/sshd_2eservice");
    assert_eq!(
        unit.active_state(),
        RemoteCall {
            destination: "org.freedesktop.systemd1".to_string(),
            path: "/org/freedesktop/systemd1/unit/sshd_2eservice".to_string(),
            interface: "org.freedesktop.systemd1.Unit".to_string(),
            member: "ActiveState".to_string(),
            kind: CallKind::Property,
            arguments: Arguments::Empty,
            expects: ReplyShape::Text,
        }
    );
}

#[test]
fn part_of_is_a_property_read_on_the_unit_object() {
    let unit = Unit::new("/org/freedesktop/systemd1/unit/a_2eservice".to_string());
    assert_eq!(
        unit.part_of(),
        RemoteCall {
            destination: "org.freedesktop.systemd1".to_string(),
            path: "/org/freedesktop/systemd1/unit/a_2eservice".to_string(),
            interface: "org.freedesktop.systemd1.Unit".to_string(),
            member: "PartOf".to_string(),
            kind: CallKind::Property,
            arguments: Arguments::Empty,
            expects: ReplyShape::TextList,
        }
    );
}

#[test]
fn reboot_is_a_login_manager_method_with_the_flag() {
    for interactive in [false, true] {
        assert_eq!(
            LoginManager.reboot(interactive),
            RemoteCall {
                destination: "org.freedesktop.login1".to_string(),
                path: "/org/freedesktop/login1".to_string(),
                interface: "org.freedesktop.login1.Manager".to_string(),
                member: "Reboot".to_string(),
                kind: CallKind::Method,
                arguments: Arguments::Interactive { interactive },
                expects: ReplyShape::Empty,
            }
        );
    }
}

#[test]
fn power_off_is_a_login_manager_method_with_the_flag() {
    for interactive in [false, true] {
        assert_eq!(
            LoginManager.power_off(interactive),
            RemoteCall {
                destination: "org.freedesktop.login1".to_string(),
                path: "/org/freedesktop/login1".to_string(),
                interface: "org.freedesktop.login1.Manager".to_string(),
                member: "PowerOff".to_string(),
                kind: CallKind::Method,
                arguments: Arguments::Interactive { interactive },
                expects: ReplyShape::Empty,
            }
        );
    }
}

#[test]
fn object_path_reply_decodes_to_its_path() {
    assert_eq!(Reply::ObjectPath("/a/b".to_string()).into_object_path(), Ok("/a/b".to_string()));
    assert_eq!(Reply::Failed("denied".to_string()).into_object_path(), Err(remote("denied")));
    assert_eq!(Reply::Text("/a/b".to_string()).into_object_path(), Err(unexpected()));
    assert_eq!(Reply::TextList(vec![]).into_object_path(), Err(unexpected()));
    assert_eq!(Reply::Empty.into_object_path(), Err(unexpected()));
    assert_eq!(Reply::Absent.into_object_path(), Err(unexpected()));
}

#[test]
fn unit_and_job_references_hold_the_path_of_the_reply() {
    let unit = Unit::from_reply(Reply::ObjectPath("/unit/1".to_string())).unwrap();
    assert_eq!(unit.path(), "/unit/1");
    let job = Job::from_reply(Reply::ObjectPath("/job/42".to_string())).unwrap();
    assert_eq!(job.path(), "/job/42");
    assert_eq!(Job::new("/job/7".to_string()).path(), "/job/7");
    assert_eq!(Unit::from_reply(Reply::Failed("gone".to_string())), Err(remote("gone")));
    assert_eq!(Job::from_reply(Reply::Failed("gone".to_string())), Err(remote("gone")));
    assert_eq!(Unit::from_reply(Reply::Empty), Err(unexpected()));
    assert_eq!(Job::from_reply(Reply::Absent), Err(unexpected()));
}

#[test]
fn text_reply_decodes_to_its_string() {
    assert_eq!(Reply::Text("active".to_string()).into_text(), Ok("active".to_string()));
    assert_eq!(Reply::Text(String::new()).into_text(), Ok(String::new()));
    assert_eq!(Reply::Failed("denied".to_string()).into_text(), Err(remote("denied")));
    assert_eq!(Reply::ObjectPath("/a".to_string()).into_text(), Err(unexpected()));
    assert_eq!(Reply::TextList(vec!["a".to_string()]).into_text(), Err(unexpected()));
    assert_eq!(Reply::Empty.into_text(), Err(unexpected()));
}

#[test]
fn absent_string_property_reads_as_empty_string() {
    assert_eq!(Reply::Absent.into_text(), Ok(String::new()));
}

#[test]
fn list_reply_decodes_to_its_strings_in_order() {
    let list = vec!["b.target".to_string(), "a.target".to_string(), "b.target".to_string()];
    assert_eq!(Reply::TextList(list.clone()).into_text_list(), Ok(list));
    assert_eq!(Reply::TextList(vec![]).into_text_list(), Ok(vec![]));
    assert_eq!(Reply::Failed("denied".to_string()).into_text_list(), Err(remote("denied")));
    assert_eq!(Reply::Text("a".to_string()).into_text_list(), Err(unexpected()));
    assert_eq!(Reply::ObjectPath("/a".to_string()).into_text_list(), Err(unexpected()));
    assert_eq!(Reply::Empty.into_text_list(), Err(unexpected()));
}

#[test]
fn absent_list_property_reads_as_empty_list() {
    assert_eq!(Reply::Absent.into_text_list(), Ok(vec![]));
}

#[test]
fn empty_reply_decodes_to_acknowledgement() {
    assert_eq!(Reply::Empty.into_acknowledged(), Ok(()));
    assert_eq!(Reply::Failed("not authorized".to_string()).into_acknowledged(), Err(remote("not authorized")));
    assert_eq!(Reply::Absent.into_acknowledged(), Err(unexpected()));
    assert_eq!(Reply::Text("ok".to_string()).into_acknowledged(), Err(unexpected()));
    assert_eq!(Reply::ObjectPath("/a".to_string()).into_acknowledged(), Err(unexpected()));
    assert_eq!(Reply::TextList(vec![]).into_acknowledged(), Err(unexpected()));
}
