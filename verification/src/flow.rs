//! What a client does after each login outcome.

use crate::login::LoginResponse;
use crate::login::LoginResponseView;
use vstd::prelude::*;

verus! {

/// The next step of a login flow.
#[derive(Clone, Debug, PartialEq, Eq)]
pub enum LoginStep {
    /// The flow has ended with a session.
    Finished,
    /// The user has to visit this URL; the flow ends here and starts anew
    /// afterwards.
    OpenUrl { url: String },
    /// The user has to solve the slider and hand in its ticket.
    SubmitTicket,
    /// The user has to hand in the SMS code.
    SubmitSmsCode,
    /// The device-lock request has to be sent.
    DeviceLockLogin,
    /// Nothing can be done to go on.
    GiveUp,
}

pub enum LoginStepView {
    Finished,
    OpenUrl { url: Seq<char> },
    SubmitTicket,
    SubmitSmsCode,
    DeviceLockLogin,
    GiveUp,
}

impl View for LoginStep {
    type V = LoginStepView;

    open spec fn view(&self) -> LoginStepView {
        match self {
            LoginStep::Finished => LoginStepView::Finished,
            LoginStep::OpenUrl { url } => LoginStepView::OpenUrl { url: url@ },
            LoginStep::SubmitTicket => LoginStepView::SubmitTicket,
            LoginStep::SubmitSmsCode => LoginStepView::SubmitSmsCode,
            LoginStep::DeviceLockLogin => LoginStepView::DeviceLockLogin,
            LoginStep::GiveUp => LoginStepView::GiveUp,
        }
    }
}

/// The step that follows an outcome. Where both an SMS code and a URL
/// would do, the URL is taken.
pub open spec fn step_after(r: LoginResponseView) -> LoginStepView {
    match r {
        LoginResponseView::Success => LoginStepView::Finished,
        LoginResponseView::SMSOrVerifyNeededError {
            verify_url,
            sms_phone,
            error_message,
        } => LoginStepView::OpenUrl { url: verify_url },
        LoginResponseView::UnsafeDeviceError { verify_url } => LoginStepView::OpenUrl {
            url: verify_url,
        },
        LoginResponseView::SliderNeededError { verify_url } => LoginStepView::SubmitTicket,
        LoginResponseView::SMSNeededError { sms_phone, error_message } => {
            LoginStepView::SubmitSmsCode
        },
        LoginResponseView::NeedDeviceLockLogin => LoginStepView::DeviceLockLogin,
        LoginResponseView::NeedCaptcha { captcha_sign, captcha_image } => LoginStepView::GiveUp,
        LoginResponseView::TooManySMSRequestError => LoginStepView::GiveUp,
        LoginResponseView::AccountFrozen { error_message } => LoginStepView::GiveUp,
        LoginResponseView::OtherLoginError { error_message } => LoginStepView::GiveUp,
        LoginResponseView::UnknownLoginError { error_message } => LoginStepView::GiveUp,
    }
}

/// Decides the step that follows an outcome.
pub fn next_step(response: &LoginResponse) -> (step: LoginStep)
    ensures
        step@ == step_after(response@),
{
    match response {
        LoginResponse::Success => LoginStep::Finished,
        LoginResponse::SMSOrVerifyNeededError { verify_url, .. } => LoginStep::OpenUrl {
            url: verify_url.clone(),
        },
        LoginResponse::UnsafeDeviceError { verify_url } => LoginStep::OpenUrl {
            url: verify_url.clone(),
        },
        LoginResponse::SliderNeededError { .. } => LoginStep::SubmitTicket,
        LoginResponse::SMSNeededError { .. } => LoginStep::SubmitSmsCode,
        LoginResponse::NeedDeviceLockLogin => LoginStep::DeviceLockLogin,
        LoginResponse::NeedCaptcha { .. } => LoginStep::GiveUp,
        LoginResponse::TooManySMSRequestError => LoginStep::GiveUp,
        LoginResponse::AccountFrozen { .. } => LoginStep::GiveUp,
        LoginResponse::OtherLoginError { .. } => LoginStep::GiveUp,
        LoginResponse::UnknownLoginError { .. } => LoginStep::GiveUp,
    }
}

} // verus!
