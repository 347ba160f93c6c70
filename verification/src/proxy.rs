//! The remote interfaces the bridge depends on.
//!
//! A proxy here performs no I/O. Each of its methods describes the one bus call or
//! property read it stands for, and a reply is decoded into the typed value that the
//! call promises. Whoever owns the connection carries the description out.

use crate::error::{BridgeError, BridgeErrorView, ErrorKind};
use vstd::prelude::*;
use vstd::string::*;

verus! {

/// Bus name of the service manager.
pub const SYSTEMD_SERVICE: &'static str = "org.freedesktop.systemd1";

/// Object path of the service manager.
pub const SYSTEMD_PATH: &'static str = "/org/freedesktop/systemd1";

/// Interface of the service manager object.
pub const SERVICE_MANAGER_INTERFACE: &'static str = "org.freedesktop.systemd1.Manager";

/// Interface of a unit object.
pub const UNIT_INTERFACE: &'static str = "org.freedesktop.systemd1.Unit";

/// Bus name of the login manager.
pub const LOGIN_SERVICE: &'static str = "org.freedesktop.login1";

/// Object path of the login manager.
pub const LOGIN_PATH: &'static str = "/org/freedesktop/login1";

/// Interface of the login manager object.
pub const LOGIN_MANAGER_INTERFACE: &'static str = "org.freedesktop.login1.Manager";

/// Detail of the failure raised when a reply has another shape than the call promises.
pub const UNEXPECTED_REPLY: &'static str = "Unexpected reply from the system bus";

/// Whether a remote call invokes a method or reads a property.
#[derive(Clone, Copy, Debug, PartialEq, Eq, Structural)]
pub enum CallKind {
    Method,
    Property,
}

/// The shape of the value a remote call answers with.
#[derive(Clone, Copy, Debug, PartialEq, Eq, Structural)]
pub enum ReplyShape {
    ObjectPath,
    Text,
    TextList,
    Empty,
}

/// What a remote call carries to the remote side.
#[derive(Clone, Debug, PartialEq, Eq)]
pub enum Arguments {
    Empty,
    Unit { unit: String },
    UnitAndMode { unit: String, mode: String },
    Interactive { interactive: bool },
}

/// The arguments of a remote call as contracts see them.
pub enum ArgumentsView {
    Empty,
    Unit { unit: Seq<char> },
    UnitAndMode { unit: Seq<char>, mode: Seq<char> },
    Interactive { interactive: bool },
}

impl View for Arguments {
    type V = ArgumentsView;

    open spec fn view(&self) -> ArgumentsView {
        match self {
            Arguments::Empty => ArgumentsView::Empty,
            Arguments::Unit { unit } => ArgumentsView::Unit { unit: unit@ },
            Arguments::UnitAndMode { unit, mode } => ArgumentsView::UnitAndMode {
                unit: unit@,
                mode: mode@,
            },
            Arguments::Interactive { interactive } => ArgumentsView::Interactive {
                interactive: *interactive,
            },
        }
    }
}

/// One request to a remote object: a method call or a property read.
#[derive(Clone, Debug, PartialEq, Eq)]
pub struct RemoteCall {
    pub destination: String,
    pub path: String,
    pub interface: String,
    pub member: String,
    pub kind: CallKind,
    pub arguments: Arguments,
    pub expects: ReplyShape,
}

/// A remote call as contracts see it.
pub struct RemoteCallView {
    pub destination: Seq<char>,
    pub path: Seq<char>,
    pub interface: Seq<char>,
    pub member: Seq<char>,
    pub kind: CallKind,
    pub arguments: ArgumentsView,
    pub expects: ReplyShape,
}

impl View for RemoteCall {
    type V = RemoteCallView;

    open spec fn view(&self) -> RemoteCallView {
        RemoteCallView {
            destination: self.destination@,
            path: self.path@,
            interface: self.interface@,
            member: self.member@,
            kind: self.kind,
            arguments: self.arguments@,
            expects: self.expects,
        }
    }
}

/// A method call on the service manager object.
pub open spec fn service_manager_call(
    member: Seq<char>,
    arguments: ArgumentsView,
) -> RemoteCallView {
    RemoteCallView {
        destination: SYSTEMD_SERVICE@,
        path: SYSTEMD_PATH@,
        interface: SERVICE_MANAGER_INTERFACE@,
        member,
        kind: CallKind::Method,
        arguments,
        expects: ReplyShape::ObjectPath,
    }
}

/// The lookup of a unit by its name.
pub open spec fn get_unit_call(unit: Seq<char>) -> RemoteCallView {
    service_manager_call("GetUnit"@, ArgumentsView::Unit { unit })
}

/// The request to start a unit.
pub open spec fn start_unit_call(unit: Seq<char>, mode: Seq<char>) -> RemoteCallView {
    service_manager_call("StartUnit"@, ArgumentsView::UnitAndMode { unit, mode })
}

/// The request to stop a unit.
pub open spec fn stop_unit_call(unit: Seq<char>, mode: Seq<char>) -> RemoteCallView {
    service_manager_call("StopUnit"@, ArgumentsView::UnitAndMode { unit, mode })
}

/// The request to restart a unit.
pub open spec fn restart_unit_call(unit: Seq<char>, mode: Seq<char>) -> RemoteCallView {
    service_manager_call("RestartUnit"@, ArgumentsView::UnitAndMode { unit, mode })
}

/// A property read on the unit object at `path`.
pub open spec fn unit_read(path: Seq<char>, member: Seq<char>, expects: ReplyShape) -> RemoteCallView {
    RemoteCallView {
        destination: SYSTEMD_SERVICE@,
        path,
        interface: UNIT_INTERFACE@,
        member,
        kind: CallKind::Property,
        arguments: ArgumentsView::Empty,
        expects,
    }
}

/// The read of a unit's current state.
pub open spec fn active_state_read(path: Seq<char>) -> RemoteCallView {
    unit_read(path, "ActiveState"@, ReplyShape::Text)
}

/// The read of the units a unit is part of.
pub open spec fn part_of_read(path: Seq<char>) -> RemoteCallView {
    unit_read(path, "PartOf"@, ReplyShape::TextList)
}

/// A method call on the login manager object.
pub open spec fn login_manager_call(member: Seq<char>, interactive: bool) -> RemoteCallView {
    RemoteCallView {
        destination: LOGIN_SERVICE@,
        path: LOGIN_PATH@,
        interface: LOGIN_MANAGER_INTERFACE@,
        member,
        kind: CallKind::Method,
        arguments: ArgumentsView::Interactive { interactive },
        expects: ReplyShape::Empty,
    }
}

/// The request to reboot the machine.
pub open spec fn reboot_call(interactive: bool) -> RemoteCallView {
    login_manager_call("Reboot"@, interactive)
}

/// The request to power the machine off.
pub open spec fn power_off_call(interactive: bool) -> RemoteCallView {
    login_manager_call("PowerOff"@, interactive)
}

/// The service manager: looks units up by name and accepts jobs for them.
#[derive(Clone, Copy, Debug, PartialEq, Eq)]
pub struct ServiceManager;

impl ServiceManager {
    fn call(member: &str, arguments: Arguments) -> (call: RemoteCall)
        ensures
            call@ == service_manager_call(member@, arguments@),
    {
        RemoteCall {
            destination: String::from_str(SYSTEMD_SERVICE),
            path: String::from_str(SYSTEMD_PATH),
            interface: String::from_str(SERVICE_MANAGER_INTERFACE),
            member: String::from_str(member),
            kind: CallKind::Method,
            arguments,
            expects: ReplyShape::ObjectPath,
        }
    }

    /// Looks the unit of the given name up; the answer is the unit's object path.
    pub fn get_unit(&self, unit: &str) -> (call: RemoteCall)
        ensures
            call@ == get_unit_call(unit@),
    {
        Self::call("GetUnit", Arguments::Unit { unit: String::from_str(unit) })
    }

    /// Asks for the unit to be started; `mode` goes to the remote side as it is.
    pub fn start_unit(&self, unit: &str, mode: &str) -> (call: RemoteCall)
        ensures
            call@ == start_unit_call(unit@, mode@),
    {
        Self::call(
            "StartUnit",
            Arguments::UnitAndMode { unit: String::from_str(unit), mode: String::from_str(mode) },
        )
    }

    /// Asks for the unit to be stopped; `mode` goes to the remote side as it is.
    pub fn stop_unit(&self, unit: &str, mode: &str) -> (call: RemoteCall)
        ensures
            call@ == stop_unit_call(unit@, mode@),
    {
        Self::call(
            "StopUnit",
            Arguments::UnitAndMode { unit: String::from_str(unit), mode: String::from_str(mode) },
        )
    }

    /// Asks for the unit to be restarted; `mode` goes to the remote side as it is.
    pub fn restart_unit(&self, unit: &str, mode: &str) -> (call: RemoteCall)
        ensures
            call@ == restart_unit_call(unit@, mode@),
    {
        Self::call(
            "RestartUnit",
            Arguments::UnitAndMode { unit: String::from_str(unit), mode: String::from_str(mode) },
        )
    }
}

/// A unit reference: the remote object that stands for one named unit.
#[derive(Clone, Debug, PartialEq, Eq)]
pub struct Unit {
    path: String,
}

impl View for Unit {
    type V = Seq<char>;

    /// The object path of the unit.
    closed spec fn view(&self) -> Seq<char> {
        self.path@
    }
}

impl Unit {
    /// The unit whose remote object lives at `path`.
    pub fn new(path: String) -> (unit: Unit)
        ensures
            unit@ == path@,
    {
        Unit { path }
    }

    /// The object path of the unit.
    pub fn path(&self) -> (path: &String)
        ensures
            path@ == self@,
    {
        &self.path
    }

    /// Decodes the reply to a lookup into the unit that it names.
    pub fn from_reply(reply: Reply) -> (decoded: Result<Unit, BridgeError>)
        ensures
            match decoded {
                Ok(unit) => reply@.object_path() == Ok::<Seq<char>, BridgeErrorView>(unit@),
                Err(error) => reply@.object_path() == Err::<Seq<char>, BridgeErrorView>(error@),
            },
    {
        match reply.into_object_path() {
            Ok(path) => Ok(Unit::new(path)),
            Err(error) => Err(error),
        }
    }

    fn read(&self, member: &str, expects: ReplyShape) -> (call: RemoteCall)
        ensures
            call@ == unit_read(self@, member@, expects),
    {
        RemoteCall {
            destination: String::from_str(SYSTEMD_SERVICE),
            path: self.path.clone(),
            interface: String::from_str(UNIT_INTERFACE),
            member: String::from_str(member),
            kind: CallKind::Property,
            arguments: Arguments::Empty,
            expects,
        }
    }

    /// Reads the current state of the unit.
    pub fn active_state(&self) -> (call: RemoteCall)
        ensures
            call@ == active_state_read(self@),
    {
        self.read("ActiveState", ReplyShape::Text)
    }

    /// Reads the names of the units this unit is part of.
    pub fn part_of(&self) -> (call: RemoteCall)
        ensures
            call@ == part_of_read(self@),
    {
        self.read("PartOf", ReplyShape::TextList)
    }
}

/// A job reference: the remote object of a state change that the service manager has
/// accepted for a unit. The bridge does not follow the job any further.
#[derive(Clone, Debug, PartialEq, Eq)]
pub struct Job {
    path: String,
}

impl View for Job {
    type V = Seq<char>;

    /// The object path of the job.
    closed spec fn view(&self) -> Seq<char> {
        self.path@
    }
}

impl Job {
    /// The job whose remote object lives at `path`.
    pub fn new(path: String) -> (job: Job)
        ensures
            job@ == path@,
    {
        Job { path }
    }

    /// The object path of the job.
    pub fn path(&self) -> (path: &String)
        ensures
            path@ == self@,
    {
        &self.path
    }

    /// Decodes the reply to a request for a state change into the job that the
    /// service manager accepted.
    pub fn from_reply(reply: Reply) -> (decoded: Result<Job, BridgeError>)
        ensures
            match decoded {
                Ok(job) => reply@.object_path() == Ok::<Seq<char>, BridgeErrorView>(job@),
                Err(error) => reply@.object_path() == Err::<Seq<char>, BridgeErrorView>(error@),
            },
    {
        match reply.into_object_path() {
            Ok(path) => Ok(Job::new(path)),
            Err(error) => Err(error),
        }
    }
}

/// The login manager: reboots the machine and powers it off.
#[derive(Clone, Copy, Debug, PartialEq, Eq)]
pub struct LoginManager;

impl LoginManager {
    fn call(member: &str, interactive: bool) -> (call: RemoteCall)
        ensures
            call@ == login_manager_call(member@, interactive),
    {
        RemoteCall {
            destination: String::from_str(LOGIN_SERVICE),
            path: String::from_str(LOGIN_PATH),
            interface: String::from_str(LOGIN_MANAGER_INTERFACE),
            member: String::from_str(member),
            kind: CallKind::Method,
            arguments: Arguments::Interactive { interactive },
            expects: ReplyShape::Empty,
        }
    }

    /// Asks for a reboot; `interactive` says whether the remote side may ask the user
    /// for authorization, and goes to it as it is.
    pub fn reboot(&self, interactive: bool) -> (call: RemoteCall)
        ensures
            call@ == reboot_call(interactive),
    {
        Self::call("Reboot", interactive)
    }

    /// Asks for the machine to be powered off; `interactive` says whether the remote
    /// side may ask the user for authorization, and goes to it as it is.
    pub fn power_off(&self, interactive: bool) -> (call: RemoteCall)
        ensures
            call@ == power_off_call(interactive),
    {
        Self::call("PowerOff", interactive)
    }
}

/// What comes back for one remote call.
#[derive(Clone, Debug, PartialEq, Eq)]
pub enum Reply {
    /// The path of a remote object.
    ObjectPath(String),
    /// A string.
    Text(String),
    /// A sequence of strings, in the order the remote side gave them.
    TextList(Vec<String>),
    /// A reply without a value.
    Empty,
    /// The property that was read is not there.
    Absent,
    /// The call failed; the text is the failure's own message.
    Failed(String),
}

/// A reply as contracts see it.
pub enum ReplyView {
    ObjectPath(Seq<char>),
    Text(Seq<char>),
    TextList(Seq<Seq<char>>),
    Empty,
    Absent,
    Failed(Seq<char>),
}

impl View for Reply {
    type V = ReplyView;

    open spec fn view(&self) -> ReplyView {
        match self {
            Reply::ObjectPath(path) => ReplyView::ObjectPath(path@),
            Reply::Text(text) => ReplyView::Text(text@),
            Reply::TextList(list) => ReplyView::TextList(list.deep_view()),
            Reply::Empty => ReplyView::Empty,
            Reply::Absent => ReplyView::Absent,
            Reply::Failed(message) => ReplyView::Failed(message@),
        }
    }
}

/// The failure of a call that the remote side or the transport reported.
pub open spec fn remote_failure(message: Seq<char>) -> BridgeErrorView {
    BridgeErrorView { kind: ErrorKind::RemoteCall, detail: message }
}

/// The failure of a reply that has another shape than its call promises.
pub open spec fn unexpected_reply() -> BridgeErrorView {
    BridgeErrorView { kind: ErrorKind::Conversion, detail: UNEXPECTED_REPLY@ }
}

impl ReplyView {
    /// The reply read as the path of a remote object.
    pub open spec fn object_path(self) -> Result<Seq<char>, BridgeErrorView> {
        match self {
            ReplyView::ObjectPath(path) => Ok(path),
            ReplyView::Failed(message) => Err(remote_failure(message)),
            _ => Err(unexpected_reply()),
        }
    }

    /// The reply read as a string property; a property that is not there reads as the
    /// empty string.
    pub open spec fn text(self) -> Result<Seq<char>, BridgeErrorView> {
        match self {
            ReplyView::Text(text) => Ok(text),
            ReplyView::Absent => Ok(Seq::empty()),
            ReplyView::Failed(message) => Err(remote_failure(message)),
            _ => Err(unexpected_reply()),
        }
    }

    /// The reply read as a property that lists strings; a property that is not there
    /// reads as the empty sequence.
    pub open spec fn text_list(self) -> Result<Seq<Seq<char>>, BridgeErrorView> {
        match self {
            ReplyView::TextList(list) => Ok(list),
            ReplyView::Absent => Ok(Seq::empty()),
            ReplyView::Failed(message) => Err(remote_failure(message)),
            _ => Err(unexpected_reply()),
        }
    }

    /// The reply read as the bare acknowledgement of a method call.
    pub open spec fn acknowledged(self) -> Result<(), BridgeErrorView> {
        match self {
            ReplyView::Empty => Ok(()),
            ReplyView::Failed(message) => Err(remote_failure(message)),
            _ => Err(unexpected_reply()),
        }
    }
}

impl Reply {
    fn failure(message: String) -> (error: BridgeError)
        ensures
            error@ == remote_failure(message@),
    {
        BridgeError::new(ErrorKind::RemoteCall, message)
    }

    fn unexpected() -> (error: BridgeError)
        ensures
            error@ == unexpected_reply(),
    {
        BridgeError::new(ErrorKind::Conversion, String::from_str(UNEXPECTED_REPLY))
    }

    /// Decodes the reply to a call that answers with the path of a remote object.
    pub fn into_object_path(self) -> (decoded: Result<String, BridgeError>)
        ensures
            match decoded {
                Ok(path) => self@.object_path() == Ok::<Seq<char>, BridgeErrorView>(path@),
                Err(error) => self@.object_path() == Err::<Seq<char>, BridgeErrorView>(error@),
            },
    {
        match self {
            Reply::ObjectPath(path) => Ok(path),
            Reply::Failed(message) => Err(Self::failure(message)),
            _ => Err(Self::unexpected()),
        }
    }

    /// Decodes the reply to the read of a string property.
    pub fn into_text(self) -> (decoded: Result<String, BridgeError>)
        ensures
            match decoded {
                Ok(text) => self@.text() == Ok::<Seq<char>, BridgeErrorView>(text@),
                Err(error) => self@.text() == Err::<Seq<char>, BridgeErrorView>(error@),
            },
    {
        match self {
            Reply::Text(text) => Ok(text),
            Reply::Absent => Ok(String::new()),
            Reply::Failed(message) => Err(Self::failure(message)),
            _ => Err(Self::unexpected()),
        }
    }

    /// Decodes the reply to the read of a property that lists strings.
    pub fn into_text_list(self) -> (decoded: Result<Vec<String>, BridgeError>)
        ensures
            match decoded {
                Ok(list) => self@.text_list() == Ok::<Seq<Seq<char>>, BridgeErrorView>(
                    list.deep_view(),
                ),
                Err(error) => self@.text_list() == Err::<Seq<Seq<char>>, BridgeErrorView>(error@),
            },
    {
        match self {
            Reply::TextList(list) => Ok(list),
            Reply::Absent => {
                let list: Vec<String> = Vec::new();
                assert(list.deep_view() =~= Seq::<Seq<char>>::empty());
                Ok(list)
            },
            Reply::Failed(message) => Err(Self::failure(message)),
            _ => Err(Self::unexpected()),
        }
    }

    /// Decodes the reply to a method call that answers without a value.
    pub fn into_acknowledged(self) -> (decoded: Result<(), BridgeError>)
        ensures
            match decoded {
                Ok(_) => self@.acknowledged() == Ok::<(), BridgeErrorView>(()),
                Err(error) => self@.acknowledged() == Err::<(), BridgeErrorView>(error@),
            },
    {
        match self {
            Reply::Empty => Ok(()),
            Reply::Failed(message) => Err(Self::failure(message)),
            _ => Err(Self::unexpected()),
        }
    }
}

} // verus!
