//! The stand-alone login form: its fields, its messages, and what
//! submitting does.

use vstd::prelude::*;
use crate::client::opt_view;
use crate::text::push_str;

verus! {

/// The events of the login form.
pub enum Msg {
    UpdateUsername(String),
    UpdatePassword(String),
    SubmitForm,
    Register,
    Logout,
    ShowMainPage,
}

/// What the login form asks of the outside world.
pub enum FormEffect {
    /// After this many milliseconds, handle `ShowMainPage`.
    ShowMainPageAfter(u32),
}

/// The login form's state.
pub struct Model {
    pub username: String,
    pub password: String,
    pub error_message: Option<String>,
    pub success_message: Option<String>,
    pub login_username: Option<String>,
    pub login_password: Option<String>,
    /// Whether a successful login moves on to the main page.
    pub flag: bool,
}

/// The model of the login form's state.
pub struct ModelView {
    pub username: Seq<char>,
    pub password: Seq<char>,
    pub error_message: Option<Seq<char>>,
    pub success_message: Option<Seq<char>>,
    pub login_username: Option<Seq<char>>,
    pub login_password: Option<Seq<char>>,
    pub flag: bool,
}

impl View for Model {
    type V = ModelView;

    open spec fn view(&self) -> ModelView {
        ModelView {
            username: self.username@,
            password: self.password@,
            error_message: opt_view(self.error_message),
            success_message: opt_view(self.success_message),
            login_username: opt_view(self.login_username),
            login_password: opt_view(self.login_password),
            flag: self.flag,
        }
    }
}

impl Model {
    /// An empty form.
    pub fn create() -> (m: Self)
        ensures
            m@ == (ModelView {
                username: Seq::empty(),
                password: Seq::empty(),
                error_message: None,
                success_message: None,
                login_username: None,
                login_password: None,
                flag: true,
            }),
    {
        let m = Model {
            username: String::new(),
            password: String::new(),
            error_message: None,
            success_message: None,
            login_username: None,
            login_password: None,
            flag: true,
        };
        assert(m@.username =~= Seq::<char>::empty());
        m
    }

    /// Handles one event of the form.
    pub fn update(&mut self, msg: Msg) -> (effect: Option<FormEffect>)
        ensures
            match msg {
                Msg::UpdateUsername(u) => final(self)@ == (ModelView { username: u@, ..old(self)@ }) && effect is None,
                Msg::UpdatePassword(p) => final(self)@ == (ModelView { password: p@, ..old(self)@ }) && effect is None,
                Msg::SubmitForm => if old(self)@.username.len() == 0 || old(self)@.password.len() == 0 {
                    final(self)@ == (ModelView {
                        error_message: Some("Both fields are required!"@),
                        success_message: None,
                        ..old(self)@
                    }) && effect is None
                } else {
                    &&& final(self)@ == (ModelView {
                        error_message: None,
                        login_username: Some(old(self)@.username),
                        login_password: Some(old(self)@.password),
                        success_message: Some("Successfully logged in as: "@ + old(self)@.username),
                        ..old(self)@
                    })
                    &&& if old(self).flag {
                        effect matches Some(FormEffect::ShowMainPageAfter(ms)) && ms == 1000
                    } else {
                        effect is None
                    }
                },
                Msg::Register => final(self)@ == (ModelView { success_message: Some("Registration clicked!"@), ..old(self)@ })
                    && effect is None,
                Msg::Logout => final(self)@ == (ModelView {
                    username: Seq::empty(),
                    password: Seq::empty(),
                    success_message: Some("Successfully logged out"@),
                    ..old(self)@
                }) && effect is None,
                Msg::ShowMainPage => final(self)@ == (ModelView {
                    success_message: Some("Login success, jump to main page....."@),
                    ..old(self)@
                }) && effect is None,
            },
    {
        match msg {
            Msg::UpdateUsername(username) => {
                self.username = username;
                None
            },
            Msg::UpdatePassword(password) => {
                self.password = password;
                None
            },
            Msg::SubmitForm => {
                if self.username.as_str().is_empty() || self.password.as_str().is_empty() {
                    self.error_message = Some(String::from_str("Both fields are required!"));
                    self.success_message = None;
                    None
                } else {
                    self.error_message = None;
                    self.login_username = Some(self.username.clone());
                    self.login_password = Some(self.password.clone());
                    let mut success = String::from_str("Successfully logged in as: ");
                    push_str(&mut success, self.username.as_str());
                    self.success_message = Some(success);
                    if self.flag {
                        Some(FormEffect::ShowMainPageAfter(1000))
                    } else {
                        None
                    }
                }
            },
            Msg::Register => {
                self.success_message = Some(String::from_str("Registration clicked!"));
                None
            },
            Msg::Logout => {
                self.username = String::new();
                self.password = String::new();
                self.success_message = Some(String::from_str("Successfully logged out"));
                proof {
                    assert(self.username@ =~= Seq::<char>::empty());
                }
                None
            },
            Msg::ShowMainPage => {
                self.success_message = Some(String::from_str("Login success, jump to main page....."));
                None
            },
        }
    }
}

} // verus!
