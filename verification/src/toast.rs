//! Toast notifications.
use vstd::prelude::*;

verus! {

/// `winrt_notification::Toast`: a toast that is ready to be shown.
#[verifier::external_type_specification]
#[verifier::external_body]
pub struct ExToast(winrt_notification::Toast);

/// The toast that `winrt_notification::Toast` builds for an application, with
/// a title, a first line of text below it, and the long or the short duration.
pub uninterp spec fn built_toast(
    app_id: Seq<char>,
    title: Seq<char>,
    text1: Seq<char>,
    long: bool,
) -> winrt_notification::Toast;

/// `winrt_notification::Toast::new`, then `title`, `text1` and `duration`: the
/// toast depends on these four values and on nothing else. Its fields are
/// private, so the contract names the toast by what it is built from.
#[verifier::external_body]
fn build_toast(app_id: &str, title: &str, text1: &str, duration: ToastDuration) -> (toast:
    winrt_notification::Toast)
    ensures
        toast == built_toast(app_id@, title@, text1@, duration == ToastDuration::Long),
{
    let duration = match duration {
        ToastDuration::Short => winrt_notification::Duration::Short,
        ToastDuration::Long => winrt_notification::Duration::Long,
    };
    winrt_notification::Toast::new(app_id).title(title).text1(text1).duration(duration)
}

/// The application that toasts are attributed to.
pub const APP_ID: &'static str = "sh.kaku.Kaku";

/// How long a notification is to stay.
#[derive(Debug, Clone, Copy, PartialEq, Eq, Structural)]
pub struct Timeout {
    pub secs: u64,
    pub subsec_nanos: u32,
}

/// A notification.
#[derive(Debug, PartialEq, Eq)]
pub struct ToastNotification {
    pub title: String,
    pub message: String,
    pub url: Option<String>,
    pub timeout: Option<Timeout>,
}

/// The two durations that the system offers.
#[derive(Debug, Clone, Copy, PartialEq, Eq, Structural)]
pub enum ToastDuration {
    Short,
    Long,
}

/// The toast to show. A click on it opens nothing.
#[derive(Debug, PartialEq, Eq)]
pub struct ToastRequest {
    pub app_id: String,
    pub title: String,
    pub text1: String,
    pub duration: ToastDuration,
}

/// Whether a notification is to stay for nine seconds or more.
pub open spec fn stays_long(timeout: Option<Timeout>) -> bool {
    timeout is Some && timeout->0.secs >= 9
}

/// What a notification shows: its title and message, for the long duration if
/// it is to stay for nine seconds or more.
pub fn toast_request(toast: &ToastNotification) -> (request: ToastRequest)
    ensures
        request.app_id@ == APP_ID@,
        request.title@ == toast.title@,
        request.text1@ == toast.message@,
        request.duration == (if stays_long(toast.timeout) {
            ToastDuration::Long
        } else {
            ToastDuration::Short
        }),
        request.app_id@ == "sh.kaku.Kaku"@,
        request.duration == ToastDuration::Long <==> (toast.timeout is Some
            && toast.timeout->0.secs >= 9),
{
    let duration = match toast.timeout {
        Some(t) => if t.secs >= 9 {
            ToastDuration::Long
        } else {
            ToastDuration::Short
        },
        None => ToastDuration::Short,
    };
    ToastRequest {
        app_id: APP_ID.to_owned(),
        title: toast.title.clone(),
        text1: toast.message.clone(),
        duration,
    }
}

/// The toast that shows a notification.
pub fn show_notif(toast: &ToastNotification) -> (shown: winrt_notification::Toast)
    ensures
        shown == built_toast(APP_ID@, toast.title@, toast.message@, stays_long(toast.timeout)),
        shown == built_toast(
            "sh.kaku.Kaku"@,
            toast.title@,
            toast.message@,
            toast.timeout is Some && toast.timeout->0.secs >= 9,
        ),
{
    let request = toast_request(toast);
    build_toast(
        request.app_id.as_str(),
        request.title.as_str(),
        request.text1.as_str(),
        request.duration,
    )
}

/// The whole seconds of the timeout alone decide on the duration, from nine on;
/// a notification without a timeout stays for the short one.
pub proof fn law_nine_seconds_are_long(timeout: Option<Timeout>)
    ensures
        timeout is None ==> !stays_long(timeout),
        timeout is Some ==> (stays_long(timeout) <==> 9 <= timeout->0.secs),
{
}


} // verus!
