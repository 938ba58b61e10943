use crate::config::Settings;
use vstd::prelude::*;
use vstd::string::StringExecFns;

verus! {

/// What the process was asked to do.
pub enum Mode {
    /// Publish one message and exit.
    Send { message: String },
    /// Consume messages until the subscription ends.
    Receive,
}

/// The one immutable configuration a run uses, resolved once before any
/// broker interaction.
pub struct RunConfig {
    pub amqp_address: String,
    pub queue_name: String,
    pub mode: Mode,
}

/// Merges the loaded settings with the command line: an explicit queue
/// override takes precedence over the configured default, and the broker
/// address is kept as loaded.
pub fn resolve_run(settings: Settings, queue_override: Option<String>, mode: Mode) -> (r:
    RunConfig)
    ensures
        r.amqp_address@ == settings.amqp_address@,
        queue_override is Some ==> r.queue_name@ == queue_override->0@,
        queue_override is None ==> r.queue_name@ == settings.queue_name@,
        r.mode == mode,
{
    let queue_name = match queue_override {
        Some(q) => q,
        None => settings.queue_name,
    };
    RunConfig { amqp_address: settings.amqp_address, queue_name, mode }
}

/// A fatal fault on the broker path, named for the step that failed.
#[derive(Debug, Clone, Copy, PartialEq, Eq, Structural)]
pub enum AppError {
    /// Opening the connection failed.
    Connection,
    /// Creating the channel failed.
    Channel,
    /// Declaring the queue failed.
    QueueDeclare,
    /// Publishing the message failed.
    Publish,
    /// The subscription could not be opened, or it yielded a fault instead
    /// of a delivery.
    Consume,
    /// Acknowledging a delivery failed.
    Ack,
    /// The spawned receive task did not run to completion.
    TaskJoin,
}

impl AppError {
    /// A short description of the fault, as the log line shows it.
    pub fn message(&self) -> (r: String)
        ensures
            *self is Connection ==> r@ == "Failed to connect to RabbitMQ"@,
            *self is Channel ==> r@ == "Failed to create RabbitMQ channel"@,
            *self is QueueDeclare ==> r@ == "Failed to declare a queue"@,
            *self is Consume ==> r@ == "Failed to consume from queue"@,
            *self is Publish ==> r@ == "Failed to publish message"@,
            *self is Ack ==> r@ == "Failed to acknowledge message"@,
            *self is TaskJoin ==> r@ == "Message receiver task failed"@,
    {
        match self {
            AppError::Connection => String::from_str("Failed to connect to RabbitMQ"),
            AppError::Channel => String::from_str("Failed to create RabbitMQ channel"),
            AppError::QueueDeclare => String::from_str("Failed to declare a queue"),
            AppError::Consume => String::from_str("Failed to consume from queue"),
            AppError::Publish => String::from_str("Failed to publish message"),
            AppError::Ack => String::from_str("Failed to acknowledge message"),
            AppError::TaskJoin => String::from_str("Message receiver task failed"),
        }
    }
}

/// The stages of bringing up a broker session, in the order they run.
#[derive(Debug, Clone, Copy, PartialEq, Eq, Structural)]
pub enum SetupStage {
    /// Opening the connection to the broker address.
    Connecting,
    /// Creating one channel on the open connection.
    OpeningChannel,
    /// Declaring the resolved queue on the channel.
    DeclaringQueue,
    /// The session is up: the run may send or receive.
    Ready,
}

/// What advancing the setup must yield: success moves to the next stage in
/// order, failure aborts with the error of the stage that failed, and a
/// session already up stays up.
pub open spec fn setup_post(stage: SetupStage, succeeded: bool, r: Result<
    SetupStage,
    AppError,
>) -> bool {
    match stage {
        SetupStage::Connecting => {
            if succeeded {
                r == Ok::<SetupStage, AppError>(SetupStage::OpeningChannel)
            } else {
                r == Err::<SetupStage, AppError>(AppError::Connection)
            }
        },
        SetupStage::OpeningChannel => {
            if succeeded {
                r == Ok::<SetupStage, AppError>(SetupStage::DeclaringQueue)
            } else {
                r == Err::<SetupStage, AppError>(AppError::Channel)
            }
        },
        SetupStage::DeclaringQueue => {
            if succeeded {
                r == Ok::<SetupStage, AppError>(SetupStage::Ready)
            } else {
                r == Err::<SetupStage, AppError>(AppError::QueueDeclare)
            }
        },
        SetupStage::Ready => r == Ok::<SetupStage, AppError>(SetupStage::Ready),
    }
}

/// The stage a session starts from.
pub fn initial_setup_stage() -> (r: SetupStage)
    ensures
        r == SetupStage::Connecting,
{
    SetupStage::Connecting
}

/// Advances the session setup after one broker operation resolved: connect,
/// then open a channel, then declare the queue; the first failure aborts
/// startup with the error of that step.
pub fn setup_advance(stage: SetupStage, succeeded: bool) -> (r: Result<SetupStage, AppError>)
    ensures
        setup_post(stage, succeeded, r),
{
    match stage {
        SetupStage::Connecting => {
            if succeeded {
                Ok(SetupStage::OpeningChannel)
            } else {
                Err(AppError::Connection)
            }
        },
        SetupStage::OpeningChannel => {
            if succeeded {
                Ok(SetupStage::DeclaringQueue)
            } else {
                Err(AppError::Channel)
            }
        },
        SetupStage::DeclaringQueue => {
            if succeeded {
                Ok(SetupStage::Ready)
            } else {
                Err(AppError::QueueDeclare)
            }
        },
        SetupStage::Ready => Ok(SetupStage::Ready),
    }
}

/// How a whole run ended, as the process reports it.
#[derive(Debug, Clone, Copy, PartialEq, Eq, Structural)]
pub enum RunOutcome {
    /// Normal completion; a swallowed publish failure counts as this too.
    Completed,
    /// Startup or the receive loop failed.
    Failed(AppError),
}

/// The exit code a run outcome earns: zero exactly on normal completion.
pub open spec fn spec_exit_code(o: RunOutcome) -> int {
    match o {
        RunOutcome::Completed => 0,
        RunOutcome::Failed(_) => 1,
    }
}

/// Turns a run outcome into the process exit code.
pub fn process_exit_code(outcome: &RunOutcome) -> (c: i32)
    ensures
        c as int == spec_exit_code(*outcome),
        c == 0 <==> *outcome is Completed,
{
    match outcome {
        RunOutcome::Completed => 0,
        RunOutcome::Failed(_) => 1,
    }
}

} // verus!
