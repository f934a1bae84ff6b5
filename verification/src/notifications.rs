//! Turning application events into notification requests, and deciding how a
//! request reaches the user.
//!
//! Nothing here touches the desktop. A request is worded from the event's
//! parameters; a sink then decides what the host has to do with it (raise a
//! native notification, or write a diagnostic line) and, once the host
//! reports back, what the caller is told.

use vstd::prelude::*;
use crate::text::{decimal, decimal_digits, push_decimal, str_eq};

verus! {

/// Notification urgency levels.
#[derive(Debug, Clone, Copy, PartialEq, Eq, Structural)]
pub enum NotificationUrgency {
    Low,
    Normal,
    Critical,
}

/// What is to be shown: a one-line title, a body and an urgency.
#[derive(Debug, PartialEq, Eq)]
pub struct NotificationRequest {
    pub title: String,
    pub body: String,
    pub urgency: NotificationUrgency,
}

/// A request as plain text.
pub struct RequestView {
    pub title: Seq<char>,
    pub body: Seq<char>,
    pub urgency: NotificationUrgency,
}

impl View for NotificationRequest {
    type V = RequestView;

    open spec fn view(&self) -> RequestView {
        RequestView { title: self.title@, body: self.body@, urgency: self.urgency }
    }
}

/// The urgency that a tag names: `low` and `critical` name themselves, every
/// other tag means `Normal`.
pub open spec fn urgency_of_tag(tag: Seq<char>) -> NotificationUrgency {
    if tag == "low"@ {
        NotificationUrgency::Low
    } else if tag == "critical"@ {
        NotificationUrgency::Critical
    } else {
        NotificationUrgency::Normal
    }
}

/// Reads an urgency tag. Tags are matched exactly; an unknown tag is not an
/// error but means `Normal`.
pub fn parse_urgency(tag: &str) -> (urgency: NotificationUrgency)
    ensures
        urgency == urgency_of_tag(tag@),
        tag@ != "low"@ && tag@ != "critical"@ ==> urgency == NotificationUrgency::Normal,
{
    if str_eq(tag, "low") {
        NotificationUrgency::Low
    } else if str_eq(tag, "critical") {
        NotificationUrgency::Critical
    } else {
        NotificationUrgency::Normal
    }
}

/// The request for a caller-worded notification: title and body as given, the
/// urgency read from the tag.
pub open spec fn generic_request(title: Seq<char>, body: Seq<char>, tag: Seq<char>) -> RequestView {
    RequestView { title, body, urgency: urgency_of_tag(tag) }
}

/// Words a generic notification. Title and body pass through unchanged,
/// whatever they hold.
pub fn map_generic(title: String, body: String, urgency_tag: &str) -> (request: NotificationRequest)
    ensures
        request@ == generic_request(title@, body@, urgency_tag@),
        urgency_tag@ != "low"@ && urgency_tag@ != "critical"@ ==> request.urgency
            == NotificationUrgency::Normal,
{
    NotificationRequest { title, body, urgency: parse_urgency(urgency_tag) }
}

/// The request that ends a work session of the given length in minutes.
pub open spec fn work_request(minutes: int) -> RequestView {
    RequestView {
        title: "Work Session Complete!"@,
        body: "You completed a "@ + decimal(minutes)
            + "-minute work session! Time to take a break. ☕"@,
        urgency: NotificationUrgency::Normal,
    }
}

/// The request that ends a break. It has no parameter: a break is announced
/// in the same words however long it was.
pub open spec fn break_request() -> RequestView {
    RequestView {
        title: "⏰ Break Complete!"@,
        body: "Break's over! Ready to focus again? Let's get back to work! 💪"@,
        urgency: NotificationUrgency::Normal,
    }
}

/// The request that ends a session of any other kind.
pub open spec fn timer_request(minutes: int) -> RequestView {
    RequestView {
        title: "⏱️ Timer Complete"@,
        body: "Your "@ + decimal(minutes) + "-minute session is complete!"@,
        urgency: NotificationUrgency::Normal,
    }
}

/// The request for a finished Pomodoro session, by its kind.
pub open spec fn pomodoro_request(session_type: Seq<char>, minutes: int) -> RequestView {
    if session_type == "work"@ {
        work_request(minutes)
    } else if session_type == "break"@ {
        break_request()
    } else {
        timer_request(minutes)
    }
}

/// Words the notification for a finished Pomodoro session. The kinds `work`
/// and `break` are matched exactly; any other kind gets the neutral wording.
pub fn map_pomodoro(session_type: &str, duration: i32) -> (request: NotificationRequest)
    ensures
        request@ == pomodoro_request(session_type@, duration as int),
        session_type@ == "work"@ ==> request@ == work_request(duration as int),
        session_type@ == "break"@ ==> request@ == break_request(),
        session_type@ != "work"@ && session_type@ != "break"@ ==> request@ == timer_request(
            duration as int,
        ),
{
    proof {
        reveal_strlit("work");
        reveal_strlit("break");
        assert("work"@.len() != "break"@.len());
    }
    if str_eq(session_type, "work") {
        let mut body = String::from_str("You completed a ");
        push_decimal(&mut body, duration);
        body.append("-minute work session! Time to take a break. ☕");
        NotificationRequest {
            title: String::from_str("Work Session Complete!"),
            body,
            urgency: NotificationUrgency::Normal,
        }
    } else if str_eq(session_type, "break") {
        NotificationRequest {
            title: String::from_str("⏰ Break Complete!"),
            body: String::from_str(
                "Break's over! Ready to focus again? Let's get back to work! 💪",
            ),
            urgency: NotificationUrgency::Normal,
        }
    } else {
        let mut body = String::from_str("Your ");
        push_decimal(&mut body, duration);
        body.append("-minute session is complete!");
        NotificationRequest {
            title: String::from_str("⏱️ Timer Complete"),
            body,
            urgency: NotificationUrgency::Normal,
        }
    }
}

/// The milestones that have wording of their own.
pub open spec fn is_table_milestone(percent: int) -> bool {
    percent == 25 || percent == 50 || percent == 75 || percent == 100
}

/// The fixed wording of the four table milestones. Only the goal's title
/// varies; it is quoted as it stands, without escaping.
pub open spec fn table_milestone_request(goal_title: Seq<char>, percent: int) -> RequestView
    recommends
        is_table_milestone(percent),
{
    if percent == 25 {
        RequestView {
            title: "🌱 Study Goal Milestone: 25%"@,
            body: "You're 25% through \""@ + goal_title + "\"! Keep going!"@,
            urgency: NotificationUrgency::Normal,
        }
    } else if percent == 50 {
        RequestView {
            title: "🚀 Study Goal Milestone: 50%"@,
            body: "Halfway there on \""@ + goal_title + "\"!"@,
            urgency: NotificationUrgency::Normal,
        }
    } else if percent == 75 {
        RequestView {
            title: "⭐ Study Goal Milestone: 75%"@,
            body: "Almost done with \""@ + goal_title + "\"!"@,
            urgency: NotificationUrgency::Normal,
        }
    } else {
        RequestView {
            title: "🎉 Study Goal Milestone: 100%"@,
            body: "Congratulations! You completed \""@ + goal_title + "\"!"@,
            urgency: NotificationUrgency::Normal,
        }
    }
}

/// The wording of every other milestone, negative ones and those above 100
/// included: the percentage is spelled out under the 📊 marker.
pub open spec fn generic_milestone_request(goal_title: Seq<char>, percent: int) -> RequestView {
    RequestView {
        title: "📊 Study Goal Milestone: "@ + decimal(percent) + "%"@,
        body: "You're "@ + decimal(percent) + "% through \""@ + goal_title + "\"!"@,
        urgency: NotificationUrgency::Normal,
    }
}

/// The request for a study-goal milestone.
pub open spec fn milestone_request(goal_title: Seq<char>, percent: int) -> RequestView {
    if is_table_milestone(percent) {
        table_milestone_request(goal_title, percent)
    } else {
        generic_milestone_request(goal_title, percent)
    }
}

/// The marker that opens a milestone's title.
spec fn marker_of(percent: int) -> Seq<char> {
    if percent == 25 {
        "🌱"@
    } else if percent == 50 {
        "🚀"@
    } else if percent == 75 {
        "⭐"@
    } else if percent == 100 {
        "🎉"@
    } else {
        "📊"@
    }
}

/// Picks the marker that opens a milestone's title.
fn milestone_marker(milestone: i32) -> (marker: &'static str)
    ensures
        marker@ == marker_of(milestone as int),
{
    if milestone == 25 {
        "🌱"
    } else if milestone == 50 {
        "🚀"
    } else if milestone == 75 {
        "⭐"
    } else if milestone == 100 {
        "🎉"
    } else {
        "📊"
    }
}

/// The sentence of a milestone's body, around the goal's title.
fn milestone_message(goal_title: &str, milestone: i32) -> (message: String)
    ensures
        message@ == milestone_request(goal_title@, milestone as int).body,
{
    let mut message: String;
    if milestone == 25 {
        message = String::from_str("You're 25% through \"");
        message.append(goal_title);
        message.append("\"! Keep going!");
    } else if milestone == 50 {
        message = String::from_str("Halfway there on \"");
        message.append(goal_title);
        message.append("\"!");
    } else if milestone == 75 {
        message = String::from_str("Almost done with \"");
        message.append(goal_title);
        message.append("\"!");
    } else if milestone == 100 {
        message = String::from_str("Congratulations! You completed \"");
        message.append(goal_title);
        message.append("\"!");
    } else {
        message = String::from_str("You're ");
        push_decimal(&mut message, milestone);
        message.append("% through \"");
        message.append(goal_title);
        message.append("\"!");
    }
    message
}

/// Every milestone's title is its marker, the fixed heading and the
/// percentage in decimal.
proof fn lemma_milestone_title(goal_title: Seq<char>, percent: int)
    ensures
        milestone_request(goal_title, percent).title == marker_of(percent)
            + " Study Goal Milestone: "@ + decimal(percent) + "%"@,
{
    reveal_with_fuel(decimal_digits, 3);
    reveal_strlit(" Study Goal Milestone: ");
    reveal_strlit("%");
    if percent == 25 {
        reveal_strlit("🌱");
        reveal_strlit("🌱 Study Goal Milestone: 25%");
        assert(decimal(25) =~= seq!['2', '5']);
        assert("🌱 Study Goal Milestone: 25%"@ =~= "🌱"@ + " Study Goal Milestone: "@ + decimal(25)
            + "%"@);
    } else if percent == 50 {
        reveal_strlit("🚀");
        reveal_strlit("🚀 Study Goal Milestone: 50%");
        assert(decimal(50) =~= seq!['5', '0']);
        assert("🚀 Study Goal Milestone: 50%"@ =~= "🚀"@ + " Study Goal Milestone: "@ + decimal(50)
            + "%"@);
    } else if percent == 75 {
        reveal_strlit("⭐");
        reveal_strlit("⭐ Study Goal Milestone: 75%");
        assert(decimal(75) =~= seq!['7', '5']);
        assert("⭐ Study Goal Milestone: 75%"@ =~= "⭐"@ + " Study Goal Milestone: "@ + decimal(75)
            + "%"@);
    } else if percent == 100 {
        reveal_strlit("🎉");
        reveal_strlit("🎉 Study Goal Milestone: 100%");
        assert(decimal(100) =~= seq!['1', '0', '0']);
        assert("🎉 Study Goal Milestone: 100%"@ =~= "🎉"@ + " Study Goal Milestone: "@ + decimal(
            100,
        ) + "%"@);
    } else {
        reveal_strlit("📊");
        reveal_strlit("📊 Study Goal Milestone: ");
        assert("📊 Study Goal Milestone: "@ =~= "📊"@ + " Study Goal Milestone: "@);
    }
}

/// Words the notification for a study-goal milestone. The goal's title is
/// trusted: it goes into the body unchanged, whatever it holds.
pub fn map_milestone(goal_title: &str, milestone: i32) -> (request: NotificationRequest)
    ensures
        request@ == milestone_request(goal_title@, milestone as int),
        is_table_milestone(milestone as int) ==> request@ == table_milestone_request(
            goal_title@,
            milestone as int,
        ),
        !is_table_milestone(milestone as int) ==> request@ == generic_milestone_request(
            goal_title@,
            milestone as int,
        ),
{
    let mut title = String::from_str(milestone_marker(milestone));
    title.append(" Study Goal Milestone: ");
    push_decimal(&mut title, milestone);
    title.append("%");
    proof {
        lemma_milestone_title(goal_title@, milestone as int);
    }
    NotificationRequest {
        title,
        body: milestone_message(goal_title, milestone),
        urgency: NotificationUrgency::Normal,
    }
}

/// Where requests go. The host picks one sink when it starts: the native one
/// where the desktop has a notification service, the logging one elsewhere.
#[derive(Debug, Clone, Copy, PartialEq, Eq, Structural)]
pub enum NotificationSink {
    /// The desktop's notification service.
    Native,
    /// A diagnostic stream; nothing is shown.
    Logging,
}

/// Everything the desktop's notification service is handed for one
/// notification.
#[derive(Debug, PartialEq, Eq)]
pub struct NativeNotification {
    pub summary: String,
    pub body: String,
    pub appname: String,
    pub icon: String,
    pub urgency: NotificationUrgency,
    /// After how many milliseconds the notification is dismissed.
    pub timeout_ms: u32,
}

/// A native notification as plain text.
pub struct NativeNotificationView {
    pub summary: Seq<char>,
    pub body: Seq<char>,
    pub appname: Seq<char>,
    pub icon: Seq<char>,
    pub urgency: NotificationUrgency,
    pub timeout_ms: u32,
}

impl View for NativeNotification {
    type V = NativeNotificationView;

    open spec fn view(&self) -> NativeNotificationView {
        NativeNotificationView {
            summary: self.summary@,
            body: self.body@,
            appname: self.appname@,
            icon: self.icon@,
            urgency: self.urgency,
            timeout_ms: self.timeout_ms,
        }
    }
}

/// What the host has to do for one delivery attempt.
#[derive(Debug, PartialEq, Eq)]
pub enum SinkAction {
    /// Hand this notification to the desktop's notification service.
    Show(NativeNotification),
    /// Write this line to the diagnostic stream.
    Log(String),
}

/// A sink action as plain text.
pub enum SinkActionView {
    Show(NativeNotificationView),
    Log(Seq<char>),
}

impl View for SinkAction {
    type V = SinkActionView;

    open spec fn view(&self) -> SinkActionView {
        match self {
            SinkAction::Show(notification) => SinkActionView::Show(notification@),
            SinkAction::Log(line) => SinkActionView::Log(line@),
        }
    }
}

/// Why a notification did not reach the user.
#[derive(Debug, PartialEq, Eq)]
pub enum NotificationError {
    /// The desktop's notification service turned the request down; the text
    /// is the service's own account of it.
    DeliveryFailed(String),
}

impl NotificationError {
    /// The error as text for the caller: the service's message, unchanged.
    pub fn into_message(self) -> (message: String)
        ensures
            self matches NotificationError::DeliveryFailed(reason) && message@ == reason@,
    {
        match self {
            NotificationError::DeliveryFailed(reason) => reason,
        }
    }
}

/// The native notification for a request: its title as the summary, its body
/// and urgency, under the application's name and icon, dismissed after five
/// seconds.
pub open spec fn native_notification(request: RequestView) -> NativeNotificationView {
    NativeNotificationView {
        summary: request.title,
        body: request.body,
        appname: "OverLearn"@,
        icon: "dialog-information"@,
        urgency: request.urgency,
        timeout_ms: 5000,
    }
}

/// The diagnostic line that stands in for a request where nothing can be
/// shown.
pub open spec fn diagnostic_line(request: RequestView) -> Seq<char> {
    "📢 Notification: "@ + request.title + " - "@ + request.body
}

/// The action by which a sink delivers a request.
pub open spec fn delivery(sink: NotificationSink, request: RequestView) -> SinkActionView {
    match sink {
        NotificationSink::Native => SinkActionView::Show(native_notification(request)),
        NotificationSink::Logging => SinkActionView::Log(diagnostic_line(request)),
    }
}

impl NotificationSink {
    /// Starts one delivery attempt: says what the host has to do to deliver
    /// `request`. The answer depends on the sink and the request alone, so a
    /// request handed in again is attempted again.
    pub fn deliver(self, request: NotificationRequest) -> (action: SinkAction)
        ensures
            action@ == delivery(self, request@),
    {
        match self {
            NotificationSink::Native => SinkAction::Show(
                NativeNotification {
                    summary: request.title,
                    body: request.body,
                    appname: String::from_str("OverLearn"),
                    icon: String::from_str("dialog-information"),
                    urgency: request.urgency,
                    timeout_ms: 5000,
                },
            ),
            NotificationSink::Logging => {
                let mut line = String::from_str("📢 Notification: ");
                line.append(request.title.as_str());
                line.append(" - ");
                line.append(request.body.as_str());
                SinkAction::Log(line)
            },
        }
    }

    /// Ends a delivery attempt: turns what the host reports into the caller's
    /// result. The logging sink never fails, whatever it was handed and
    /// whatever is reported; the native sink fails exactly when the service
    /// did, with the service's message.
    pub fn conclude(self, outcome: Result<(), String>) -> (result: Result<(), NotificationError>)
        ensures
            self == NotificationSink::Logging ==> result is Ok,
            outcome is Ok ==> result is Ok,
            self == NotificationSink::Native && outcome is Err ==> (result matches Err(
                NotificationError::DeliveryFailed(reason),
            ) && reason@ == outcome->Err_0@),
    {
        match self {
            NotificationSink::Logging => Ok(()),
            NotificationSink::Native => match outcome {
                Ok(()) => Ok(()),
                Err(reason) => Err(NotificationError::DeliveryFailed(reason)),
            },
        }
    }
}

/// An application event that calls for a notification.
#[derive(Debug, PartialEq, Eq)]
pub enum NotificationEvent {
    /// A notification worded by the caller, with an urgency tag.
    Generic { title: String, body: String, urgency: String },
    /// A Pomodoro session of some kind has run its minutes.
    PomodoroComplete { session_type: String, duration_minutes: i32 },
    /// A study goal has reached a percentage of completion.
    StudyGoalMilestone { goal_title: String, milestone_percent: i32 },
}

/// The request that an event calls for.
pub open spec fn event_request(event: NotificationEvent) -> RequestView {
    match event {
        NotificationEvent::Generic { title, body, urgency } => generic_request(
            title@,
            body@,
            urgency@,
        ),
        NotificationEvent::PomodoroComplete { session_type, duration_minutes } => pomodoro_request(
            session_type@,
            duration_minutes as int,
        ),
        NotificationEvent::StudyGoalMilestone { goal_title, milestone_percent } => milestone_request(
            goal_title@,
            milestone_percent as int,
        ),
    }
}

/// Words the notification for an event. Every event has one: values that no
/// wording was made for fall back to a default wording, never to an error.
pub fn map_event(event: NotificationEvent) -> (request: NotificationRequest)
    ensures
        request@ == event_request(event),
{
    match event {
        NotificationEvent::Generic { title, body, urgency } => map_generic(
            title,
            body,
            urgency.as_str(),
        ),
        NotificationEvent::PomodoroComplete { session_type, duration_minutes } => map_pomodoro(
            session_type.as_str(),
            duration_minutes,
        ),
        NotificationEvent::StudyGoalMilestone { goal_title, milestone_percent } => map_milestone(
            goal_title.as_str(),
            milestone_percent,
        ),
    }
}

/// Words the notification for an event and starts its delivery.
pub fn dispatch(sink: NotificationSink, event: NotificationEvent) -> (action: SinkAction)
    ensures
        action@ == delivery(sink, event_request(event)),
{
    sink.deliver(map_event(event))
}

/// Delivers a notification worded by the caller.
pub fn show_native_notification(
    sink: NotificationSink,
    title: &str,
    body: &str,
    urgency: NotificationUrgency,
) -> (action: SinkAction)
    ensures
        action@ == delivery(sink, RequestView { title: title@, body: body@, urgency }),
{
    sink.deliver(
        NotificationRequest { title: String::from_str(title), body: String::from_str(body), urgency },
    )
}

/// Delivers the notification for a finished Pomodoro session.
pub fn show_pomodoro_notification(sink: NotificationSink, session_type: &str, duration: i32) -> (action:
    SinkAction)
    ensures
        action@ == delivery(sink, pomodoro_request(session_type@, duration as int)),
{
    sink.deliver(map_pomodoro(session_type, duration))
}

/// Delivers the notification for a study-goal milestone.
pub fn show_study_goal_notification(sink: NotificationSink, goal_title: &str, milestone: i32) -> (action:
    SinkAction)
    ensures
        action@ == delivery(sink, milestone_request(goal_title@, milestone as int)),
{
    sink.deliver(map_milestone(goal_title, milestone))
}

/// A break is announced in the same words whatever its length: the duration
/// has no part in the request.
pub proof fn lemma_break_ignores_duration(first: int, second: int)
    ensures
        pomodoro_request("break"@, first) == break_request(),
        pomodoro_request("break"@, first) == pomodoro_request("break"@, second),
{
    reveal_strlit("work");
    reveal_strlit("break");
    assert("work"@.len() != "break"@.len());
}

/// Nothing is deduplicated: a request that equals an earlier one gets a
/// delivery attempt of its own, and that attempt carries the request in full.
pub proof fn lemma_no_deduplication(sink: NotificationSink, first: RequestView, second: RequestView)
    requires
        first == second,
    ensures
        delivery(sink, second) == delivery(sink, first),
        sink == NotificationSink::Native ==> delivery(sink, second) == SinkActionView::Show(
            native_notification(second),
        ),
        sink == NotificationSink::Logging ==> delivery(sink, second) == SinkActionView::Log(
            diagnostic_line(second),
        ),
{
}

} // verus!
