//! How the plugin starts: the attempts, and what one attempt does in which order.

use crate::config::{Config, LoggingConfig};
use vstd::prelude::*;

verus! {

/// How often a start is attempted.
pub const MAX_ATTEMPTS: u32 = 3;

/// How long to wait between two attempts.
pub const RETRY_DELAY_SECS: u64 = 60;

/// Where the configuration lies if the command line does not say.
pub const DEFAULT_CONFIG_PATH: &'static str = "config/config.toml";

/// How often the plugin tells HomeCore that it is alive.
pub const HEARTBEAT_SECS: u64 = 60;

/// How long the event loop is given to come up.
pub const SETTLE_MILLIS: u64 = 100;

/// The exit code of a plugin that could not start.
pub const EXIT_FAILURE: i32 = 1;

/// The path of the configuration, given the first argument of the command line.
pub fn config_path(argument: Option<String>) -> (path: String)
    ensures
        path@ == (match argument {
            Some(path) => path@,
            None => "config/config.toml"@,
        }),
{
    match argument {
        Some(path) => path,
        None => DEFAULT_CONFIG_PATH.to_owned(),
    }
}

/// How logging is set up before the configuration proper is read.
#[derive(Debug)]
pub struct LoggingSetup {
    pub config_path: String,
    /// The name that log files and log lines carry.
    pub name: &'static str,
    /// What is logged where nothing else says.
    pub default_filter: &'static str,
    pub logging: LoggingConfig,
}

/// The set-up of logging, given the logging section of the configuration file where there is a
/// file that can be read; `fallback` takes its place where there is none.
pub fn init_logging(
    config_path: &str,
    section: Option<LoggingConfig>,
    fallback: LoggingConfig,
) -> (setup: LoggingSetup)
    ensures
        setup.config_path@ == config_path@,
        setup.name@ == "hc-ecowitt"@,
        setup.default_filter@ == "hc_ecowitt=info"@,
        setup.logging == (match section {
            Some(logging) => logging,
            None => fallback,
        }),
{
    LoggingSetup {
        config_path: config_path.to_owned(),
        name: "hc-ecowitt",
        default_filter: "hc_ecowitt=info",
        logging: match section {
            Some(logging) => logging,
            None => fallback,
        },
    }
}

// ---------------------------------------------------------------------------------------------
// Attempts
// ---------------------------------------------------------------------------------------------

/// What follows an attempt to start.
#[derive(Debug, Clone, Copy, PartialEq, Eq, Structural)]
pub enum AfterAttempt {
    /// The plugin ran and came to its end.
    Finished,
    /// Wait, and make another attempt.
    Retry { delay_secs: u64, attempt: u32 },
    /// Exit with a code.
    GiveUp { exit_code: i32 },
}

/// What follows the attempt with the given number; the first has the number one.
pub open spec fn next_attempt(attempt: u32, started: bool) -> AfterAttempt {
    if started {
        AfterAttempt::Finished
    } else if attempt < MAX_ATTEMPTS {
        AfterAttempt::Retry { delay_secs: RETRY_DELAY_SECS, attempt: (attempt + 1) as u32 }
    } else {
        AfterAttempt::GiveUp { exit_code: EXIT_FAILURE }
    }
}

/// What follows an attempt to start, by its number and by whether it went well.
pub fn after_attempt(attempt: u32, started: bool) -> (next: AfterAttempt)
    ensures
        next == next_attempt(attempt, started),
{
    if started {
        AfterAttempt::Finished
    } else if attempt < MAX_ATTEMPTS {
        AfterAttempt::Retry { delay_secs: RETRY_DELAY_SECS, attempt: attempt + 1 }
    } else {
        AfterAttempt::GiveUp { exit_code: EXIT_FAILURE }
    }
}

/// How the attempts end, from the given one on, where `starts` says which of them go well: the
/// number of the last attempt, and what followed it.
pub open spec fn launch(attempt: u32, starts: spec_fn(u32) -> bool) -> (u32, AfterAttempt)
    decreases MAX_ATTEMPTS - attempt,
{
    match next_attempt(attempt, starts(attempt)) {
        AfterAttempt::Retry { attempt: next, .. } => if next > attempt {
            launch(next, starts)
        } else {
            (attempt, AfterAttempt::GiveUp { exit_code: EXIT_FAILURE })
        },
        last => (attempt, last),
    }
}

/// The plugin makes at most the allowed attempts. It stops at the first that goes well, and it
/// gives up if and only if none does.
pub proof fn a_launch_ends(starts: spec_fn(u32) -> bool)
    ensures
        ({
            let (last, next) = launch(1, starts);
            &&& 1 <= last <= MAX_ATTEMPTS
            &&& forall|attempt: u32| 1 <= attempt < last ==> !(#[trigger] starts(attempt))
            &&& starts(last) ==> next == AfterAttempt::Finished
            &&& !starts(last) ==> last == MAX_ATTEMPTS && next == (AfterAttempt::GiveUp {
                exit_code: EXIT_FAILURE,
            })
        }),
{
    reveal_with_fuel(launch, 4);
    assert forall|attempt: u32| 1 <= attempt < launch(1, starts).0 implies !(#[trigger] starts(
        attempt,
    )) by {
        assert(attempt == 1 || attempt == 2);
    }
}

// ---------------------------------------------------------------------------------------------
// One attempt
// ---------------------------------------------------------------------------------------------

/// The stages of an attempt.
#[derive(Debug, Clone, Copy, PartialEq, Eq, Structural)]
pub enum StartStage {
    Preparing,
    Connecting,
    ForwardingLogs,
    EnablingManagement,
    PublishingStatus,
    StartingEventLoop,
    Settling,
    StartingPoller,
    Serving,
}

/// What a stage does.
#[derive(Debug, PartialEq, Eq)]
pub enum StartStep {
    /// Set up what the receiver goes by, and the registry with what an earlier run left in its
    /// cache.
    Prepare { plugin_id: String, config_path: String },
    /// Connect to HomeCore.
    Connect { broker_host: String, broker_port: u16, plugin_id: String, password: String },
    /// Forward log lines from the given level on.
    ForwardLogs { plugin_id: String, level: String },
    /// Enable the management protocol, with the manifest and the actions.
    EnableManagement { heartbeat_secs: u64, version: String, config_path: String },
    /// Publish the status of the plugin.
    PublishStatus { status: &'static str },
    /// Start the event loop. Weather sensors take no commands.
    StartEventLoop,
    /// Wait for the event loop to come up.
    Settle { millis: u64 },
    /// Start to poll the gateway, where there is one.
    StartPoller { gateway_ip: Option<String>, interval_secs: u64 },
    /// Receive reports until the server ends.
    Serve { bind_addr: String, port: u16 },
}

/// Whether a step is what a stage does.
pub open spec fn is_due(
    step: StartStep,
    stage: StartStage,
    config: Config,
    path: Seq<char>,
    plugin_version: Seq<char>,
) -> bool {
    match stage {
        StartStage::Preparing => step matches StartStep::Prepare { plugin_id, config_path } && {
            &&& plugin_id@ == config.homecore.plugin_id@
            &&& config_path@ == path
        },
        StartStage::Connecting => step matches StartStep::Connect {
            broker_host,
            broker_port,
            plugin_id,
            password,
        } && {
            &&& broker_host@ == config.homecore.broker_host@
            &&& broker_port == config.homecore.broker_port
            &&& plugin_id@ == config.homecore.plugin_id@
            &&& password@ == config.homecore.password@
        },
        StartStage::ForwardingLogs => step matches StartStep::ForwardLogs { plugin_id, level } && {
            &&& plugin_id@ == config.homecore.plugin_id@
            &&& level@ == config.logging.log_forward_level@
        },
        StartStage::EnablingManagement => step matches StartStep::EnableManagement {
            heartbeat_secs,
            version,
            config_path,
        } && {
            &&& heartbeat_secs == HEARTBEAT_SECS
            &&& version@ == plugin_version
            &&& config_path@ == path
        },
        StartStage::PublishingStatus => step matches StartStep::PublishStatus { status } && status@
            == "active"@,
        StartStage::StartingEventLoop => step is StartEventLoop,
        StartStage::Settling => step == (StartStep::Settle { millis: SETTLE_MILLIS }),
        StartStage::StartingPoller => step matches StartStep::StartPoller {
            gateway_ip,
            interval_secs,
        } && {
            &&& gateway_ip == config.ecowitt.gateway_ip
            &&& interval_secs == config.ecowitt.poll_interval_secs
        },
        StartStage::Serving => step matches StartStep::Serve { bind_addr, port } && {
            &&& bind_addr@ == config.ecowitt.bind_addr@
            &&& port == config.ecowitt.listen_port
        },
    }
}

/// What a stage of an attempt does.
pub fn try_start(stage: StartStage, config: &Config, config_path: &str, version: &str) -> (step:
    StartStep)
    ensures
        is_due(step, stage, *config, config_path@, version@),
        stage == StartStage::Connecting ==> step is Connect && step->broker_host@
            == config.homecore.broker_host@ && step->broker_port == config.homecore.broker_port
            && step->Connect_plugin_id@ == config.homecore.plugin_id@ && step->password@
            == config.homecore.password@,
        stage == StartStage::ForwardingLogs ==> step is ForwardLogs && step->ForwardLogs_plugin_id@
            == config.homecore.plugin_id@ && step->level@ == config.logging.log_forward_level@,
        stage == StartStage::StartingPoller ==> step is StartPoller && step->gateway_ip
            == config.ecowitt.gateway_ip && step->interval_secs
            == config.ecowitt.poll_interval_secs,
        stage == StartStage::Serving ==> step is Serve && step->bind_addr@
            == config.ecowitt.bind_addr@ && step->port == config.ecowitt.listen_port,
{
    match stage {
        StartStage::Preparing => StartStep::Prepare {
            plugin_id: config.homecore.plugin_id.clone(),
            config_path: config_path.to_owned(),
        },
        StartStage::Connecting => StartStep::Connect {
            broker_host: config.homecore.broker_host.clone(),
            broker_port: config.homecore.broker_port,
            plugin_id: config.homecore.plugin_id.clone(),
            password: config.homecore.password.clone(),
        },
        StartStage::ForwardingLogs => StartStep::ForwardLogs {
            plugin_id: config.homecore.plugin_id.clone(),
            level: config.logging.log_forward_level.clone(),
        },
        StartStage::EnablingManagement => StartStep::EnableManagement {
            heartbeat_secs: HEARTBEAT_SECS,
            version: version.to_owned(),
            config_path: config_path.to_owned(),
        },
        StartStage::PublishingStatus => StartStep::PublishStatus { status: "active" },
        StartStage::StartingEventLoop => StartStep::StartEventLoop,
        StartStage::Settling => StartStep::Settle { millis: SETTLE_MILLIS },
        StartStage::StartingPoller => StartStep::StartPoller {
            gateway_ip: match &config.ecowitt.gateway_ip {
                Some(ip) => Some(ip.clone()),
                None => None,
            },
            interval_secs: config.ecowitt.poll_interval_secs,
        },
        StartStage::Serving => StartStep::Serve {
            bind_addr: config.ecowitt.bind_addr.clone(),
            port: config.ecowitt.listen_port,
        },
    }
}

/// What follows a stage.
#[derive(Debug, PartialEq, Eq)]
pub enum Progress {
    /// The next stage.
    Next(StartStage),
    /// The attempt is over.
    Over(Result<(), String>),
}

/// What follows a stage, in words.
pub enum ProgressView {
    Next(StartStage),
    Over(Result<(), Seq<char>>),
}

/// The outcome of a stage, in words.
pub open spec fn outcome_of(outcome: Result<(), String>) -> Result<(), Seq<char>> {
    match outcome {
        Ok(()) => Ok(()),
        Err(e) => Err(e@),
    }
}

impl View for Progress {
    type V = ProgressView;

    open spec fn view(&self) -> ProgressView {
        match self {
            Progress::Next(stage) => ProgressView::Next(*stage),
            Progress::Over(outcome) => ProgressView::Over(outcome_of(*outcome)),
        }
    }
}

/// Whether an attempt cannot go on without a stage.
pub open spec fn is_vital(stage: StartStage) -> bool {
    ||| stage == StartStage::Preparing
    ||| stage == StartStage::Connecting
    ||| stage == StartStage::EnablingManagement
}

/// The stage after one that did not end the attempt; none after the last.
pub open spec fn stage_after(stage: StartStage, has_gateway: bool) -> Option<StartStage> {
    match stage {
        StartStage::Preparing => Some(StartStage::Connecting),
        StartStage::Connecting => Some(StartStage::ForwardingLogs),
        StartStage::ForwardingLogs => Some(StartStage::EnablingManagement),
        StartStage::EnablingManagement => Some(StartStage::PublishingStatus),
        StartStage::PublishingStatus => Some(StartStage::StartingEventLoop),
        StartStage::StartingEventLoop => Some(StartStage::Settling),
        StartStage::Settling => if has_gateway {
            Some(StartStage::StartingPoller)
        } else {
            Some(StartStage::Serving)
        },
        StartStage::StartingPoller => Some(StartStage::Serving),
        StartStage::Serving => None,
    }
}

/// What follows a stage: a vital one that failed ends the attempt with its error, and the end of
/// the last ends it well; any other failure is passed over.
pub open spec fn progress(
    stage: StartStage,
    has_gateway: bool,
    outcome: Result<(), Seq<char>>,
) -> ProgressView {
    if is_vital(stage) && outcome is Err {
        ProgressView::Over(outcome)
    } else {
        match stage_after(stage, has_gateway) {
            Some(next) => ProgressView::Next(next),
            None => ProgressView::Over(Ok(())),
        }
    }
}

/// What follows a stage of an attempt, by its outcome.
pub fn after_stage(stage: StartStage, config: &Config, outcome: Result<(), String>) -> (next:
    Progress)
    ensures
        next@ == progress(stage, config.ecowitt.gateway_ip is Some, outcome_of(outcome)),
{
    match stage {
        StartStage::Preparing => match outcome {
            Ok(()) => Progress::Next(StartStage::Connecting),
            Err(e) => Progress::Over(Err(e)),
        },
        StartStage::Connecting => match outcome {
            Ok(()) => Progress::Next(StartStage::ForwardingLogs),
            Err(e) => Progress::Over(Err(e)),
        },
        StartStage::ForwardingLogs => Progress::Next(StartStage::EnablingManagement),
        StartStage::EnablingManagement => match outcome {
            Ok(()) => Progress::Next(StartStage::PublishingStatus),
            Err(e) => Progress::Over(Err(e)),
        },
        StartStage::PublishingStatus => Progress::Next(StartStage::StartingEventLoop),
        StartStage::StartingEventLoop => Progress::Next(StartStage::Settling),
        StartStage::Settling => if config.ecowitt.gateway_ip.is_some() {
            Progress::Next(StartStage::StartingPoller)
        } else {
            Progress::Next(StartStage::Serving)
        },
        StartStage::StartingPoller => Progress::Next(StartStage::Serving),
        StartStage::Serving => Progress::Over(Ok(())),
    }
}

/// How many stages can still come.
pub open spec fn stages_left(stage: StartStage) -> nat {
    match stage {
        StartStage::Preparing => 9,
        StartStage::Connecting => 8,
        StartStage::ForwardingLogs => 7,
        StartStage::EnablingManagement => 6,
        StartStage::PublishingStatus => 5,
        StartStage::StartingEventLoop => 4,
        StartStage::Settling => 3,
        StartStage::StartingPoller => 2,
        StartStage::Serving => 1,
    }
}

/// The stages that an attempt goes through from the given one on, and how it ends, where
/// `outcomes` says what comes of each stage.
pub open spec fn attempt(
    stage: StartStage,
    has_gateway: bool,
    outcomes: spec_fn(StartStage) -> Result<(), Seq<char>>,
) -> (Seq<StartStage>, Result<(), Seq<char>>)
    decreases stages_left(stage),
{
    match progress(stage, has_gateway, outcomes(stage)) {
        ProgressView::Next(next) => {
            let (later, end) = attempt(next, has_gateway, outcomes);
            (seq![stage] + later, end)
        },
        ProgressView::Over(end) => (seq![stage], end),
    }
}

/// The stages of an attempt that goes well.
pub open spec fn full_start(has_gateway: bool) -> Seq<StartStage> {
    let before = seq![
        StartStage::Preparing,
        StartStage::Connecting,
        StartStage::ForwardingLogs,
        StartStage::EnablingManagement,
        StartStage::PublishingStatus,
        StartStage::StartingEventLoop,
        StartStage::Settling,
    ];
    if has_gateway {
        before + seq![StartStage::StartingPoller, StartStage::Serving]
    } else {
        before + seq![StartStage::Serving]
    }
}

/// Where the vital stages go well, an attempt goes through all stages and ends well, whatever
/// comes of the others. It polls if and only if a gateway is configured.
pub proof fn a_start_needs_only_the_vital_stages(
    has_gateway: bool,
    outcomes: spec_fn(StartStage) -> Result<(), Seq<char>>,
)
    requires
        forall|stage: StartStage| is_vital(stage) ==> #[trigger] outcomes(stage) is Ok,
    ensures
        attempt(StartStage::Preparing, has_gateway, outcomes).0 == full_start(has_gateway),
        attempt(StartStage::Preparing, has_gateway, outcomes).1 is Ok,
        full_start(has_gateway).contains(StartStage::StartingPoller) <==> has_gateway,
{
    reveal_with_fuel(attempt, 10);
    assert(outcomes(StartStage::Preparing) is Ok);
    assert(outcomes(StartStage::Connecting) is Ok);
    assert(outcomes(StartStage::EnablingManagement) is Ok);
    assert(attempt(StartStage::Preparing, has_gateway, outcomes).0 =~= full_start(has_gateway));
    if has_gateway {
        assert(full_start(has_gateway)[7] == StartStage::StartingPoller);
    }
}

/// An attempt fails if and only if a vital stage does. It then ends at the first that does, with
/// its error.
pub proof fn a_failed_start_names_its_error(
    stage: StartStage,
    has_gateway: bool,
    outcomes: spec_fn(StartStage) -> Result<(), Seq<char>>,
)
    ensures
        ({
            let (stages, end) = attempt(stage, has_gateway, outcomes);
            &&& stages.len() > 0
            &&& end is Err ==> is_vital(stages.last()) && end == outcomes(stages.last())
            &&& end is Ok ==> stages.last() == StartStage::Serving
            &&& forall|i: int|
                #![trigger stages[i]]
                0 <= i < stages.len() - 1 && is_vital(stages[i]) ==> outcomes(stages[i]) is Ok
        }),
    decreases stages_left(stage),
{
    match progress(stage, has_gateway, outcomes(stage)) {
        ProgressView::Next(next) => {
            a_failed_start_names_its_error(next, has_gateway, outcomes);
            let (later, end) = attempt(next, has_gateway, outcomes);
            let stages = seq![stage] + later;
            assert(stages.last() == later.last());
            assert forall|i: int|
                #![trigger stages[i]]
                0 <= i < stages.len() - 1 && is_vital(stages[i]) implies outcomes(
                stages[i],
            ) is Ok by {
                if i > 0 {
                    assert(stages[i] == later[i - 1]);
                }
            }
        },
        ProgressView::Over(_) => {},
    }
}

/// The plugin connects to the configured broker, under the configured id and with the configured
/// password.
pub proof fn the_plugin_connects_where_the_configuration_says(
    step: StartStep,
    config: Config,
    path: Seq<char>,
    version: Seq<char>,
)
    requires
        is_due(step, StartStage::Connecting, config, path, version),
    ensures
        step is Connect,
        step->broker_host@ == config.homecore.broker_host@,
        step->broker_port == config.homecore.broker_port,
        step->Connect_plugin_id@ == config.homecore.plugin_id@,
        step->password@ == config.homecore.password@,
{
}

/// The receiver listens where the configuration says: at its address and on its port.
pub proof fn the_receiver_listens_where_the_configuration_says(
    step: StartStep,
    config: Config,
    path: Seq<char>,
    version: Seq<char>,
)
    requires
        is_due(step, StartStage::Serving, config, path, version),
    ensures
        step is Serve,
        step->bind_addr@ == config.ecowitt.bind_addr@,
        step->port == config.ecowitt.listen_port,
{
}

/// The poller asks the configured gateway at the configured interval.
pub proof fn the_poller_goes_by_the_configuration(
    step: StartStep,
    config: Config,
    path: Seq<char>,
    version: Seq<char>,
)
    requires
        is_due(step, StartStage::StartingPoller, config, path, version),
    ensures
        step is StartPoller,
        step->gateway_ip == config.ecowitt.gateway_ip,
        step->interval_secs == config.ecowitt.poll_interval_secs,
{
}

/// Log lines are forwarded under the configured id and from the configured level on.
pub proof fn logs_are_forwarded_as_configured(
    step: StartStep,
    config: Config,
    path: Seq<char>,
    version: Seq<char>,
)
    requires
        is_due(step, StartStage::ForwardingLogs, config, path, version),
    ensures
        step is ForwardLogs,
        step->ForwardLogs_plugin_id@ == config.homecore.plugin_id@,
        step->level@ == config.logging.log_forward_level@,
{
}

/// The registry is set up for the configured id and beside the configuration; management is enabled
/// with a heartbeat every 60 seconds, the version of the plugin and the path of the configuration.
pub proof fn the_plugin_manages_itself_as_configured(
    preparing: StartStep,
    enabling: StartStep,
    config: Config,
    path: Seq<char>,
    version: Seq<char>,
)
    requires
        is_due(preparing, StartStage::Preparing, config, path, version),
        is_due(enabling, StartStage::EnablingManagement, config, path, version),
    ensures
        preparing is Prepare,
        preparing->Prepare_plugin_id@ == config.homecore.plugin_id@,
        preparing->Prepare_config_path@ == path,
        enabling is EnableManagement,
        enabling->heartbeat_secs == 60,
        enabling->version@ == version,
        enabling->EnableManagement_config_path@ == path,
{
}

/// The remaining steps depend on no configuration: the status is published as active, the event
/// loop is started, and it is given a tenth of a second.
pub proof fn some_steps_are_the_same_under_every_configuration(
    publishing: StartStep,
    starting: StartStep,
    settling: StartStep,
    config: Config,
    path: Seq<char>,
    version: Seq<char>,
)
    requires
        is_due(publishing, StartStage::PublishingStatus, config, path, version),
        is_due(starting, StartStage::StartingEventLoop, config, path, version),
        is_due(settling, StartStage::Settling, config, path, version),
    ensures
        publishing is PublishStatus,
        publishing->status@ == "active"@,
        starting is StartEventLoop,
        settling is Settle,
        settling->millis == 100,
{
}

/// Two configurations that differ in where to listen, whom to poll or how to connect give different
/// steps.
pub proof fn different_configurations_give_different_starts(
    step: StartStep,
    other_step: StartStep,
    stage: StartStage,
    config: Config,
    other: Config,
    path: Seq<char>,
    version: Seq<char>,
)
    requires
        is_due(step, stage, config, path, version),
        is_due(other_step, stage, other, path, version),
    ensures
        stage == StartStage::Serving && (config.ecowitt.listen_port != other.ecowitt.listen_port
            || config.ecowitt.bind_addr@ != other.ecowitt.bind_addr@) ==> step != other_step,
        stage == StartStage::StartingPoller && (config.ecowitt.poll_interval_secs
            != other.ecowitt.poll_interval_secs || config.ecowitt.gateway_ip
            != other.ecowitt.gateway_ip) ==> step != other_step,
        stage == StartStage::Connecting && (config.homecore.broker_host@
            != other.homecore.broker_host@ || config.homecore.broker_port
            != other.homecore.broker_port || config.homecore.plugin_id@
            != other.homecore.plugin_id@ || config.homecore.password@ != other.homecore.password@)
            ==> step != other_step,
{
}

/// A failed attempt is repeated after a minute until there were three, and then the plugin exits
/// with code one; an attempt that went well is the last.
pub proof fn three_attempts_a_minute_apart(attempt: u32)
    ensures
        next_attempt(attempt, true) == AfterAttempt::Finished,
        attempt < 3 ==> next_attempt(attempt, false) == (AfterAttempt::Retry {
            delay_secs: 60,
            attempt: (attempt + 1) as u32,
        }),
        attempt >= 3 ==> next_attempt(attempt, false) == (AfterAttempt::GiveUp { exit_code: 1 }),
{
}

/// A failure to prepare, to connect or to enable management ends the attempt with its error.
/// Nothing else does: after any other stage, and after these where they went well, comes the next,
/// and the attempt ends well when the receiver does.
pub proof fn what_follows_a_stage(
    stage: StartStage,
    has_gateway: bool,
    outcome: Result<(), Seq<char>>,
)
    ensures
        progress(stage, has_gateway, outcome) == (match stage {
            StartStage::Preparing => match outcome {
                Ok(()) => ProgressView::Next(StartStage::Connecting),
                Err(e) => ProgressView::Over(Err(e)),
            },
            StartStage::Connecting => match outcome {
                Ok(()) => ProgressView::Next(StartStage::ForwardingLogs),
                Err(e) => ProgressView::Over(Err(e)),
            },
            StartStage::ForwardingLogs => ProgressView::Next(StartStage::EnablingManagement),
            StartStage::EnablingManagement => match outcome {
                Ok(()) => ProgressView::Next(StartStage::PublishingStatus),
                Err(e) => ProgressView::Over(Err(e)),
            },
            StartStage::PublishingStatus => ProgressView::Next(StartStage::StartingEventLoop),
            StartStage::StartingEventLoop => ProgressView::Next(StartStage::Settling),
            StartStage::Settling => if has_gateway {
                ProgressView::Next(StartStage::StartingPoller)
            } else {
                ProgressView::Next(StartStage::Serving)
            },
            StartStage::StartingPoller => ProgressView::Next(StartStage::Serving),
            StartStage::Serving => ProgressView::Over(Ok(())),
        }),
{
}

/// What follows a stage is read as it is.
pub proof fn progress_is_read_as_it_is(next: Progress)
    ensures
        match next {
            Progress::Next(stage) => next@ == ProgressView::Next(stage),
            Progress::Over(Ok(())) => next@ == ProgressView::Over(Ok(())),
            Progress::Over(Err(e)) => next@ == ProgressView::Over(Err(e@)),
        },
{
}

/// Where every stage goes well, an attempt connects before it enables management, enables
/// management before the event loop runs, and polls and serves last.
pub proof fn the_order_of_a_start(
    has_gateway: bool,
    outcomes: spec_fn(StartStage) -> Result<(), Seq<char>>,
)
    requires
        forall|stage: StartStage| #[trigger] outcomes(stage) is Ok,
    ensures
        attempt(StartStage::Preparing, true, outcomes).0 == seq![
            StartStage::Preparing,
            StartStage::Connecting,
            StartStage::ForwardingLogs,
            StartStage::EnablingManagement,
            StartStage::PublishingStatus,
            StartStage::StartingEventLoop,
            StartStage::Settling,
            StartStage::StartingPoller,
            StartStage::Serving,
        ],
        attempt(StartStage::Preparing, false, outcomes).0 == seq![
            StartStage::Preparing,
            StartStage::Connecting,
            StartStage::ForwardingLogs,
            StartStage::EnablingManagement,
            StartStage::PublishingStatus,
            StartStage::StartingEventLoop,
            StartStage::Settling,
            StartStage::Serving,
        ],
        attempt(StartStage::Preparing, has_gateway, outcomes).1 is Ok,
{
    a_start_needs_only_the_vital_stages(true, outcomes);
    a_start_needs_only_the_vital_stages(false, outcomes);
    a_start_needs_only_the_vital_stages(has_gateway, outcomes);
    assert(full_start(true) =~= seq![
        StartStage::Preparing,
        StartStage::Connecting,
        StartStage::ForwardingLogs,
        StartStage::EnablingManagement,
        StartStage::PublishingStatus,
        StartStage::StartingEventLoop,
        StartStage::Settling,
        StartStage::StartingPoller,
        StartStage::Serving,
    ]);
    assert(full_start(false) =~= seq![
        StartStage::Preparing,
        StartStage::Connecting,
        StartStage::ForwardingLogs,
        StartStage::EnablingManagement,
        StartStage::PublishingStatus,
        StartStage::StartingEventLoop,
        StartStage::Settling,
        StartStage::Serving,
    ]);
}

} // verus!
