//! The stand-alone registration page: checking what the user typed, and
//! keeping what was registered.

use vstd::prelude::*;
use crate::client::opt_view;

verus! {

/// The events of the registration page.
pub enum Msg {
    ClearForm,
    ReturnToLogin,
    Submit,
}

/// What the user typed into the page's three fields.
pub struct FormInputs {
    pub username: String,
    pub password: String,
    pub confirm: String,
}

/// What the registration page asks of the outside world.
pub enum PageEffect {
    /// Empty the three input fields.
    ClearInputs,
    /// Go to the login page now.
    GoToLogin,
    /// Go to the login page after this many milliseconds.
    GoToLoginAfter(u32),
}

/// The registration page's state.
pub struct RegistrationPage {
    pub error_message: Option<String>,
    pub success_message: Option<String>,
    pub registered_username: Option<String>,
    pub registered_password: Option<String>,
    /// Whether a registration moves on to the login page.
    pub flag: bool,
}

/// The model of the registration page's state.
pub struct RegistrationView {
    pub error_message: Option<Seq<char>>,
    pub success_message: Option<Seq<char>>,
    pub registered_username: Option<Seq<char>>,
    pub registered_password: Option<Seq<char>>,
    pub flag: bool,
}

impl View for RegistrationPage {
    type V = RegistrationView;

    open spec fn view(&self) -> RegistrationView {
        RegistrationView {
            error_message: opt_view(self.error_message),
            success_message: opt_view(self.success_message),
            registered_username: opt_view(self.registered_username),
            registered_password: opt_view(self.registered_password),
            flag: self.flag,
        }
    }
}

impl RegistrationPage {
    /// A page with nothing registered.
    pub fn create() -> (p: Self)
        ensures
            p@ == (RegistrationView {
                error_message: None,
                success_message: None,
                registered_username: None,
                registered_password: None,
                flag: true,
            }),
    {
        RegistrationPage {
            error_message: None,
            success_message: None,
            registered_username: None,
            registered_password: None,
            flag: true,
        }
    }

    /// Handles one event; `inputs` is what the fields hold (read only for
    /// `Submit`).
    pub fn update(&mut self, msg: Msg, inputs: FormInputs) -> (effect: Option<PageEffect>)
        ensures
            match msg {
                Msg::ClearForm => final(self)@ == old(self)@ && effect matches Some(PageEffect::ClearInputs),
                Msg::ReturnToLogin => final(self)@ == old(self)@ && effect matches Some(PageEffect::GoToLogin),
                Msg::Submit => if inputs.username@.len() == 0 || inputs.password@.len() == 0 || inputs.confirm@.len() == 0 {
                    final(self)@ == (RegistrationView { error_message: Some("Need to fill in all information!"@), ..old(self)@ })
                        && effect is None
                } else if inputs.password@ != inputs.confirm@ {
                    final(self)@ == (RegistrationView { error_message: Some("The password is not the same!"@), ..old(self)@ })
                        && effect is None
                } else {
                    &&& final(self)@ == (RegistrationView {
                        error_message: None,
                        registered_username: Some(inputs.username@),
                        registered_password: Some(inputs.password@),
                        success_message: Some("Registration information stored successfully!"@),
                        ..old(self)@
                    })
                    &&& if old(self).flag {
                        effect matches Some(PageEffect::GoToLoginAfter(ms)) && ms == 1000
                    } else {
                        effect is None
                    }
                },
            },
    {
        match msg {
            Msg::ClearForm => Some(PageEffect::ClearInputs),
            Msg::ReturnToLogin => Some(PageEffect::GoToLogin),
            Msg::Submit => {
                let FormInputs { username, password, confirm } = inputs;
                if username.as_str().is_empty() || password.as_str().is_empty() || confirm.as_str().is_empty() {
                    self.error_message = Some(String::from_str("Need to fill in all information!"));
                    None
                } else if password != confirm {
                    self.error_message = Some(String::from_str("The password is not the same!"));
                    None
                } else {
                    self.error_message = None;
                    self.registered_username = Some(username);
                    self.registered_password = Some(password);
                    self.success_message = Some(String::from_str("Registration information stored successfully!"));
                    if self.flag {
                        Some(PageEffect::GoToLoginAfter(1000))
                    } else {
                        None
                    }
                }
            },
        }
    }
}

} // verus!
