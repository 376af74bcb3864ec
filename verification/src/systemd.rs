//! Installing and removing the application as a systemd service: the steps
//! to take, decided from what the host looks like.
use vstd::prelude::*;
use vstd::string::*;

use crate::parse_cli::CliArgs;

verus! {

/// The program that controls systemd.
pub open spec fn systemctl() -> Seq<char> {
    "systemctl"@
}

/// The program that changes file ownership.
pub open spec fn chown() -> Seq<char> {
    "chown"@
}

/// The application's name.
pub open spec fn app_name() -> Seq<char> {
    "leafcast"@
}

/// The name of the log file in the log directory.
pub open spec fn logs_name() -> Seq<char> {
    "leafcast.log"@
}

/// The systemd unit's name.
pub open spec fn service_name() -> Seq<char> {
    "leafcast.service"@
}

/// Where the systemd unit file lives.
pub open spec fn dot_service() -> Seq<char> {
    "/etc/systemd/system/leafcast.service"@
}

/// The log file in the log directory.
pub open spec fn logs_path(location_log: Seq<char>) -> Seq<char> {
    location_log + "/"@ + logs_name()
}

/// The owner given to the log file: the user and the user's group.
pub open spec fn owner(user: Seq<char>) -> Seq<char> {
    user + ":"@ + user
}

/// The user who ran the application through sudo, from `SUDO_USER`; none
/// where it is unset, empty or root.
pub open spec fn spec_user_name(sudo_user: Option<Seq<char>>) -> Option<Seq<char>> {
    match sudo_user {
        Some(u) => if u == "root"@ || u.len() == 0 {
            None
        } else {
            Some(u)
        },
        None => None,
    }
}

/// The unit file: run the binary in `current_dir` as `user`, restarting it
/// five seconds after it stops.
pub open spec fn spec_service_file(user: Seq<char>, current_dir: Seq<char>) -> Seq<char> {
    "[Unit]\nDescription="@ + app_name()
        + "\nAfter=network-online.target\nWants=network-online.target\nStartLimitIntervalSec=0\n\n[Service]\nExecStart="@
        + current_dir + "/"@ + app_name() + "\nWorkingDirectory="@ + current_dir
        + "\nSyslogIdentifier="@ + app_name() + "\nUser="@ + user + "\nGroup="@ + user
        + "\nRestart=always\nRestartSec=5\n\n[Install]\nWantedBy=multi-user.target\n"@
}

/// How the application exits.
#[derive(Debug, Clone, Copy, PartialEq, Eq, Structural)]
pub enum Code {
    Valid,
    Invalid,
}

/// One thing to do on the host.
pub enum Step {
    /// Run a program with arguments and wait for it.
    Run { program: String, args: Vec<String> },
    /// Create (or truncate) a file; `WriteFile` writes to it.
    CreateFile(String),
    /// Write text to the file just created.
    WriteFile(String),
    /// Delete a file.
    RemoveFile(String),
    /// Fail here: the text for the unit file could not be made.
    Fail,
    /// Log the message and exit with the code.
    Exit { code: Code, message: String },
}

/// A [`Step`] with its texts as sequences of characters.
pub enum StepSpec {
    Run(Seq<char>, Seq<Seq<char>>),
    CreateFile(Seq<char>),
    WriteFile(Seq<char>),
    RemoveFile(Seq<char>),
    Fail,
    Exit(Code, Seq<char>),
}

/// The texts of a list of strings.
pub open spec fn texts(v: Seq<String>) -> Seq<Seq<char>> {
    v.map_values(|s: String| s@)
}

impl View for Step {
    type V = StepSpec;

    open spec fn view(&self) -> StepSpec {
        match self {
            Step::Run { program, args } => StepSpec::Run(program@, texts(args@)),
            Step::CreateFile(p) => StepSpec::CreateFile(p@),
            Step::WriteFile(t) => StepSpec::WriteFile(t@),
            Step::RemoveFile(p) => StepSpec::RemoveFile(p@),
            Step::Fail => StepSpec::Fail,
            Step::Exit { code, message } => StepSpec::Exit(*code, message@),
        }
    }
}

/// Steps done in order; where one fails, the application logs
/// `on_failure` and exits as invalid.
pub struct Phase {
    pub steps: Vec<Step>,
    pub on_failure: String,
}

/// The steps of a list.
pub open spec fn steps_view(steps: Seq<Step>) -> Seq<StepSpec> {
    steps.map_values(|s: Step| s@)
}

impl View for Phase {
    type V = (Seq<StepSpec>, Seq<char>);

    open spec fn view(&self) -> (Seq<StepSpec>, Seq<char>) {
        (steps_view(self.steps@), self.on_failure@)
    }
}

/// The phases of a plan.
pub open spec fn plan_view(plan: Seq<Phase>) -> Seq<(Seq<StepSpec>, Seq<char>)> {
    plan.map_values(|p: Phase| p@)
}

/// What the host looks like when the application starts.
pub struct HostState {
    /// Whether the application runs as root.
    pub running_as_root: bool,
    /// `SUDO_USER`, where it is set to valid text.
    pub sudo_user: Option<String>,
    /// Whether the unit file exists.
    pub service_file_exists: bool,
    /// The working directory, where it could be read.
    pub current_dir: Option<String>,
}

/// Running `systemctl` with one argument and the service.
pub open spec fn systemctl_on_service(verb: Seq<char>) -> StepSpec {
    StepSpec::Run(systemctl(), seq![verb, service_name()])
}

/// Giving the log file to the user.
pub open spec fn chown_logs(user: Seq<char>, location_log: Seq<char>) -> StepSpec {
    StepSpec::Run(chown(), seq![owner(user), logs_path(location_log)])
}

/// Removing the service, where a user ran the application through sudo and
/// the unit file exists: stop, disable, delete the unit file, reload
/// systemd, and give the log file back to the user.
pub open spec fn spec_uninstall_steps(
    user: Option<Seq<char>>,
    service_file_exists: bool,
    location_log: Seq<char>,
) -> Seq<StepSpec> {
    match user {
        Some(u) => if service_file_exists {
            seq![
                systemctl_on_service("stop"@),
                systemctl_on_service("disable"@),
                StepSpec::RemoveFile(dot_service()),
                StepSpec::Run(systemctl(), seq!["daemon-reload"@]),
                chown_logs(u, location_log),
            ]
        } else {
            Seq::empty()
        },
        None => Seq::empty(),
    }
}

/// Installing the service for the user who ran the application through
/// sudo: write the unit file, reload systemd, enable the service, give the
/// log file to the user, start the service. Without such a user, exit.
pub open spec fn spec_install_steps(
    user: Option<Seq<char>>,
    current_dir: Option<Seq<char>>,
    location_log: Seq<char>,
) -> Seq<StepSpec> {
    match user {
        Some(u) => match current_dir {
            Some(dir) => seq![
                StepSpec::CreateFile(dot_service()),
                StepSpec::WriteFile(spec_service_file(u, dir)),
                StepSpec::Run(systemctl(), seq!["daemon-reload"@]),
                systemctl_on_service("enable"@),
                chown_logs(u, location_log),
                systemctl_on_service("start"@),
            ],
            None => seq![StepSpec::CreateFile(dot_service()), StepSpec::Fail],
        },
        None => seq![StepSpec::Exit(Code::Invalid, "invalid user"@)],
    }
}

/// The plan for the command line and the host: nothing without an option;
/// otherwise exit unless running as root, then uninstall any old service,
/// install when asked, and exit as valid.
pub open spec fn spec_check(
    cli: CliArgs,
    running_as_root: bool,
    sudo_user: Option<Seq<char>>,
    service_file_exists: bool,
    current_dir: Option<Seq<char>>,
    location_log: Seq<char>,
) -> Seq<(Seq<StepSpec>, Seq<char>)> {
    let user = spec_user_name(sudo_user);
    let not_root = seq![(seq![StepSpec::Exit(Code::Invalid, "not running as sudo"@)], Seq::<char>::empty())];
    let uninstall = (
        spec_uninstall_steps(user, service_file_exists, location_log),
        "uninstall old service failure"@,
    );
    if cli.install {
        if !running_as_root {
            not_root
        } else {
            seq![
                uninstall,
                (spec_install_steps(user, current_dir, location_log), "install failure"@),
                (seq![StepSpec::Exit(Code::Valid, "Installed service"@)], Seq::<char>::empty()),
            ]
        }
    } else if cli.uninstall {
        if !running_as_root {
            not_root
        } else {
            seq![
                uninstall,
                (seq![StepSpec::Exit(Code::Valid, "Uninstalled service"@)], Seq::<char>::empty()),
            ]
        }
    } else {
        Seq::empty()
    }
}

/// Without an option there is nothing to do. With one, the plan ends by
/// exiting; without root that exit is all of it, and with root the old
/// service is removed first.
pub proof fn law_plan_shape(
    cli: CliArgs,
    running_as_root: bool,
    sudo_user: Option<Seq<char>>,
    service_file_exists: bool,
    current_dir: Option<Seq<char>>,
    location_log: Seq<char>,
)
    ensures
        ({
            let plan = spec_check(
                cli,
                running_as_root,
                sudo_user,
                service_file_exists,
                current_dir,
                location_log,
            );
            &&& !(cli.install || cli.uninstall) ==> plan.len() == 0
            &&& (cli.install || cli.uninstall) ==> {
                &&& plan.len() >= 1
                &&& plan.last().0.len() == 1
                &&& plan.last().0[0] is Exit
            }
            &&& (cli.install || cli.uninstall) && !running_as_root ==> plan == seq![
                (seq![StepSpec::Exit(Code::Invalid, "not running as sudo"@)], Seq::<char>::empty()),
            ]
            &&& (cli.install || cli.uninstall) && running_as_root ==> {
                &&& plan[0].0 == spec_uninstall_steps(
                    spec_user_name(sudo_user),
                    service_file_exists,
                    location_log,
                )
                &&& plan.last().0[0] is Exit && plan.last().0[0]->Exit_0 == Code::Valid
            }
        }),
{
}

/// Installing gives the user the log file in the log directory,
/// "<location_log>/leafcast.log", as "<user>:<user>", whatever the working
/// directory; it is the same step that uninstalling ends with.
pub proof fn law_install_gives_the_log_file(
    user: Seq<char>,
    current_dir: Seq<char>,
    other_dir: Seq<char>,
    location_log: Seq<char>,
)
    ensures
        spec_install_steps(Some(user), Some(current_dir), location_log)[4] == StepSpec::Run(
            "chown"@,
            seq![user + seq![':'] + user, location_log + "/leafcast.log"@],
        ),
        spec_install_steps(Some(user), Some(current_dir), location_log)[4] == spec_install_steps(
            Some(user),
            Some(other_dir),
            location_log,
        )[4],
        spec_install_steps(Some(user), Some(current_dir), location_log)[4] == spec_uninstall_steps(
            Some(user),
            true,
            location_log,
        )[4],
{
    reveal_strlit("chown");
    reveal_strlit(":");
    reveal_strlit("/");
    reveal_strlit("leafcast.log");
    reveal_strlit("/leafcast.log");
    assert(owner(user) =~= user + seq![':'] + user);
    assert(logs_path(location_log) =~= location_log + "/leafcast.log"@);
}

/// The text of an optional string.
pub open spec fn opt_text(s: Option<String>) -> Option<Seq<char>> {
    match s {
        Some(t) => Some(t@),
        None => None,
    }
}

/// The systemd unit's name.
pub fn get_service_name() -> (r: String)
    ensures
        r@ == service_name(),
{
    String::from_str("leafcast.service")
}

/// Where the systemd unit file lives.
pub fn get_dot_service() -> (r: String)
    ensures
        r@ == dot_service(),
{
    String::from_str("/etc/systemd/system/leafcast.service")
}

/// The user who ran the application through sudo, from the value of
/// `SUDO_USER`; none where it is unset, empty or root.
pub fn get_user_name(sudo_user: Option<String>) -> (r: Option<String>)
    ensures
        opt_text(r) == spec_user_name(opt_text(sudo_user)),
{
    match sudo_user {
        Some(user_name) => {
            if user_name == String::from_str("root") || user_name.as_str().unicode_len() == 0 {
                None
            } else {
                Some(user_name)
            }
        },
        None => None,
    }
}

/// The unit file for `user_name`, with the binary in `current_dir`.
pub fn create_service_file(user_name: &str, current_dir: &str) -> (r: String)
    ensures
        r@ == spec_service_file(user_name@, current_dir@),
{
    let mut r = String::from_str("[Unit]\nDescription=");
    r.append("leafcast");
    r.append(
        "\nAfter=network-online.target\nWants=network-online.target\nStartLimitIntervalSec=0\n\n[Service]\nExecStart=",
    );
    r.append(current_dir);
    r.append("/");
    r.append("leafcast");
    r.append("\nWorkingDirectory=");
    r.append(current_dir);
    r.append("\nSyslogIdentifier=");
    r.append("leafcast");
    r.append("\nUser=");
    r.append(user_name);
    r.append("\nGroup=");
    r.append(user_name);
    r.append("\nRestart=always\nRestartSec=5\n\n[Install]\nWantedBy=multi-user.target\n");
    r
}

/// A step that runs `program` with `args`.
fn run(program: &str, args: Vec<String>) -> (r: Step)
    ensures
        r@ == StepSpec::Run(program@, texts(args@)),
{
    Step::Run { program: String::from_str(program), args }
}

/// `systemctl <verb> leafcast.service`.
fn systemctl_service(verb: &str) -> (r: Step)
    ensures
        r@ == systemctl_on_service(verb@),
{
    let mut args: Vec<String> = Vec::new();
    args.push(String::from_str(verb));
    args.push(get_service_name());
    assert(texts(args@) =~= seq![verb@, service_name()]);
    run("systemctl", args)
}

/// `systemctl daemon-reload`.
fn daemon_reload() -> (r: Step)
    ensures
        r@ == StepSpec::Run(systemctl(), seq!["daemon-reload"@]),
{
    let mut args: Vec<String> = Vec::new();
    args.push(String::from_str("daemon-reload"));
    assert(texts(args@) =~= seq!["daemon-reload"@]);
    run("systemctl", args)
}

/// `chown <user>:<user> <location_log>/leafcast.log`.
fn chown_logs_step(user: &str, location_log: &str) -> (r: Step)
    ensures
        r@ == chown_logs(user@, location_log@),
{
    let mut who = String::from_str(user);
    who.append(":");
    who.append(user);
    let mut path = String::from_str(location_log);
    path.append("/");
    path.append("leafcast.log");
    let mut args: Vec<String> = Vec::new();
    args.push(who);
    args.push(path);
    assert(texts(args@) =~= seq![owner(user@), logs_path(location_log@)]);
    run("chown", args)
}

/// The steps that remove an installed service.
pub fn uninstall_service(user: &Option<String>, service_file_exists: bool, location_log: &str) -> (r:
    Vec<Step>)
    ensures
        steps_view(r@) == spec_uninstall_steps(opt_text(*user), service_file_exists, location_log@),
{
    let mut steps: Vec<Step> = Vec::new();
    if let Some(user_name) = user {
        if service_file_exists {
            steps.push(systemctl_service("stop"));
            steps.push(systemctl_service("disable"));
            steps.push(Step::RemoveFile(get_dot_service()));
            steps.push(daemon_reload());
            steps.push(chown_logs_step(user_name.as_str(), location_log));
        }
    }
    assert(steps_view(steps@) =~= spec_uninstall_steps(
        opt_text(*user),
        service_file_exists,
        location_log@,
    ));
    steps
}

/// The steps that install the service.
pub fn install_service(user: &Option<String>, current_dir: &Option<String>, location_log: &str) -> (r:
    Vec<Step>)
    ensures
        steps_view(r@) == spec_install_steps(opt_text(*user), opt_text(*current_dir), location_log@),
{
    let mut steps: Vec<Step> = Vec::new();
    match user {
        Some(user_name) => {
            steps.push(Step::CreateFile(get_dot_service()));
            match current_dir {
                Some(dir) => {
                    steps.push(
                        Step::WriteFile(create_service_file(user_name.as_str(), dir.as_str())),
                    );
                    steps.push(daemon_reload());
                    steps.push(systemctl_service("enable"));
                    steps.push(chown_logs_step(user_name.as_str(), location_log));
                    steps.push(systemctl_service("start"));
                },
                None => {
                    steps.push(Step::Fail);
                },
            }
        },
        None => {
            steps.push(Step::Exit { code: Code::Invalid, message: String::from_str("invalid user") });
        },
    }
    assert(steps_view(steps@) =~= spec_install_steps(
        opt_text(*user),
        opt_text(*current_dir),
        location_log@,
    ));
    steps
}

/// A phase of one exit step.
fn exit_phase(code: Code, message: &str) -> (r: Phase)
    ensures
        r@ == (seq![StepSpec::Exit(code, message@)], Seq::<char>::empty()),
{
    let mut steps: Vec<Step> = Vec::new();
    steps.push(Step::Exit { code, message: String::from_str(message) });
    assert(steps_view(steps@) =~= seq![StepSpec::Exit(code, message@)]);
    Phase { steps, on_failure: String::new() }
}

/// The plan for the command line options, given the host and the log
/// directory: see [`spec_check`].
pub fn check(cli: &CliArgs, host: &HostState, location_log: &str) -> (r: Vec<Phase>)
    ensures
        plan_view(r@) == spec_check(
            *cli,
            host.running_as_root,
            opt_text(host.sudo_user),
            host.service_file_exists,
            opt_text(host.current_dir),
            location_log@,
        ),
{
    let mut plan: Vec<Phase> = Vec::new();
    if cli.install || cli.uninstall {
        if !host.running_as_root {
            plan.push(exit_phase(Code::Invalid, "not running as sudo"));
        } else {
            let user = get_user_name(host.sudo_user.clone());
            plan.push(
                Phase {
                    steps: uninstall_service(&user, host.service_file_exists, location_log),
                    on_failure: String::from_str("uninstall old service failure"),
                },
            );
            if cli.install {
                plan.push(
                    Phase {
                        steps: install_service(&user, &host.current_dir, location_log),
                        on_failure: String::from_str("install failure"),
                    },
                );
                plan.push(exit_phase(Code::Valid, "Installed service"));
            } else {
                plan.push(exit_phase(Code::Valid, "Uninstalled service"));
            }
        }
    }
    assert(plan_view(plan@) =~= spec_check(
        *cli,
        host.running_as_root,
        opt_text(host.sudo_user),
        host.service_file_exists,
        opt_text(host.current_dir),
        location_log@,
    ));
    plan
}

} // verus!
