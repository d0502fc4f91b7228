use chat_app::login_form::{FormEffect, Model, Msg as LoginMsg};
use chat_app::registration::{FormInputs, Msg as RegistrationMsg, PageEffect, RegistrationPage};

#[test]
fn login_form_submission() {
    let mut m = Model::create();
    assert!(m.update(LoginMsg::SubmitForm).is_none());
    assert_eq!(m.error_message.as_deref(), Some("Both fields are required!"));
    m.update(LoginMsg::UpdateUsername("ann".to_string()));
    m.update(LoginMsg::UpdatePassword("pw".to_string()));
    let e = m.update(LoginMsg::SubmitForm);
    assert!(matches!(e, Some(FormEffect::ShowMainPageAfter(1000))));
    assert!(m.error_message.is_none());
    assert_eq!(m.success_message.as_deref(), Some("Successfully logged in as: ann"));
    assert_eq!(m.login_username.as_deref(), Some("ann"));
    assert_eq!(m.login_password.as_deref(), Some("pw"));
    m.update(LoginMsg::ShowMainPage);
    assert_eq!(m.success_message.as_deref(), Some("Login success, jump to main page....."));
    m.update(LoginMsg::Logout);
    assert_eq!(m.username, "");
    assert_eq!(m.success_message.as_deref(), Some("Successfully logged out"));
    m.update(LoginMsg::Register);
    assert_eq!(m.success_message.as_deref(), Some("Registration clicked!"));
}

fn inputs(u: &str, p: &str, c: &str) -> FormInputs {
    FormInputs { username: u.to_string(), password: p.to_string(), confirm: c.to_string() }
}

#[test]
fn registration_page_checks() {
    let mut page = RegistrationPage::create();
    assert!(page.update(RegistrationMsg::Submit, inputs("ann", "", "")).is_none());
    assert_eq!(page.error_message.as_deref(), Some("Need to fill in all information!"));
    assert!(page.update(RegistrationMsg::Submit, inputs("ann", "a", "b")).is_none());
    assert_eq!(page.error_message.as_deref(), Some("The password is not the same!"));
    let e = page.update(RegistrationMsg::Submit, inputs("ann", "a", "a"));
    assert!(matches!(e, Some(PageEffect::GoToLoginAfter(1000))));
    assert!(page.error_message.is_none());
    assert_eq!(page.registered_username.as_deref(), Some("ann"));
    assert_eq!(page.success_message.as_deref(), Some("Registration information stored successfully!"));
    assert!(matches!(page.update(RegistrationMsg::ClearForm, inputs("", "", "")), Some(PageEffect::ClearInputs)));
    assert!(matches!(page.update(RegistrationMsg::ReturnToLogin, inputs("", "", "")), Some(PageEffect::GoToLogin)));
}
