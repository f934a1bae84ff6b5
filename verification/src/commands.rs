//! The commands that the front end invokes, as decisions: each says what the
//! host has to do, and `command_result` says what the front end is told once
//! the host has done it.

use vstd::prelude::*;
use crate::notifications::{
    delivery, generic_request, map_generic, milestone_request, pomodoro_request,
    show_pomodoro_notification, show_study_goal_notification, NotificationSink, SinkAction,
    SinkActionView,
};
use crate::text::{decimal, push_decimal};

verus! {

/// Greets the user by name.
pub fn greet(name: &str) -> (greeting: String)
    ensures
        greeting@ == "Hello, "@ + name@ + "! Welcome to OverLearn."@,
{
    let mut greeting = String::from_str("Hello, ");
    greeting.append(name);
    greeting.append("! Welcome to OverLearn.");
    greeting
}

/// The line that stands in for a caller-worded notification on a host
/// without a notification service. The urgency is not part of it.
pub open spec fn native_fallback_line(title: Seq<char>, message: Seq<char>) -> Seq<char> {
    "Native notification: "@ + title + " - "@ + message
}

/// The task a Pomodoro session belonged to, as the fallback line names it.
pub open spec fn task_label(task_title: Option<String>) -> Seq<char> {
    match task_title {
        Some(title) => title@,
        None => "no task"@,
    }
}

/// The line that stands in for a Pomodoro notification on a host without a
/// notification service.
pub open spec fn pomodoro_fallback_line(
    session_type: Seq<char>,
    minutes: int,
    task: Seq<char>,
) -> Seq<char> {
    "Pomodoro notification: "@ + session_type + " session ("@ + decimal(minutes) + " min) - "@
        + task
}

/// The line that stands in for a milestone notification on a host without a
/// notification service.
pub open spec fn milestone_fallback_line(goal_title: Seq<char>, percent: int) -> Seq<char> {
    "Study goal notification: "@ + decimal(percent) + "% milestone for '"@ + goal_title + "'"@
}

/// Shows a notification worded by the front end. With the native sink the
/// urgency tag is read (an unknown tag means normal urgency) and the request
/// is delivered; with the logging sink the host writes one line instead.
pub fn show_native_notification(
    sink: NotificationSink,
    title: String,
    message: String,
    urgency: String,
) -> (action: SinkAction)
    ensures
        sink == NotificationSink::Native ==> action@ == delivery(
            sink,
            generic_request(title@, message@, urgency@),
        ),
        sink == NotificationSink::Logging ==> action@ == SinkActionView::Log(
            native_fallback_line(title@, message@),
        ),
{
    match sink {
        NotificationSink::Native => sink.deliver(map_generic(title, message, urgency.as_str())),
        NotificationSink::Logging => {
            let mut line = String::from_str("Native notification: ");
            line.append(title.as_str());
            line.append(" - ");
            line.append(message.as_str());
            SinkAction::Log(line)
        },
    }
}

/// Announces a finished Pomodoro session. The task's title appears only in
/// the logging sink's line.
pub fn notify_pomodoro_complete(
    sink: NotificationSink,
    session_type: String,
    duration: i32,
    task_title: Option<String>,
) -> (action: SinkAction)
    ensures
        sink == NotificationSink::Native ==> action@ == delivery(
            sink,
            pomodoro_request(session_type@, duration as int),
        ),
        sink == NotificationSink::Logging ==> action@ == SinkActionView::Log(
            pomodoro_fallback_line(session_type@, duration as int, task_label(task_title)),
        ),
{
    match sink {
        NotificationSink::Native => show_pomodoro_notification(
            sink,
            session_type.as_str(),
            duration,
        ),
        NotificationSink::Logging => {
            let mut line = String::from_str("Pomodoro notification: ");
            line.append(session_type.as_str());
            line.append(" session (");
            push_decimal(&mut line, duration);
            line.append(" min) - ");
            match task_title {
                Some(title) => line.append(title.as_str()),
                None => line.append("no task"),
            }
            SinkAction::Log(line)
        },
    }
}

/// Announces a study-goal milestone.
pub fn notify_study_goal_milestone(sink: NotificationSink, goal_title: String, milestone: i32) -> (action:
    SinkAction)
    ensures
        sink == NotificationSink::Native ==> action@ == delivery(
            sink,
            milestone_request(goal_title@, milestone as int),
        ),
        sink == NotificationSink::Logging ==> action@ == SinkActionView::Log(
            milestone_fallback_line(goal_title@, milestone as int),
        ),
{
    match sink {
        NotificationSink::Native => show_study_goal_notification(
            sink,
            goal_title.as_str(),
            milestone,
        ),
        NotificationSink::Logging => {
            let mut line = String::from_str("Study goal notification: ");
            push_decimal(&mut line, milestone);
            line.append("% milestone for '");
            line.append(goal_title.as_str());
            line.append("'");
            SinkAction::Log(line)
        },
    }
}

/// What the front end is told after the host carried out a command's action:
/// success, or the notification service's message as plain text.
pub fn command_result(sink: NotificationSink, outcome: Result<(), String>) -> (result: Result<
    (),
    String,
>)
    ensures
        sink == NotificationSink::Logging ==> result is Ok,
        outcome is Ok ==> result is Ok,
        sink == NotificationSink::Native && outcome is Err ==> (result matches Err(message)
            && message@ == outcome->Err_0@),
{
    match sink.conclude(outcome) {
        Ok(()) => Ok(()),
        Err(error) => Err(error.into_message()),
    }
}

} // verus!
