use sedentary_tracker::login::is_rate_limited;
use sedentary_tracker::login::login_outcome;
use sedentary_tracker::login::LoginForm;
use sedentary_tracker::login::LoginOutcome;
use sedentary_tracker::login::ATTEMPT_WINDOW_SECONDS;
use sedentary_tracker::login::MAX_LOGIN_ATTEMPTS;
use sedentary_tracker::signup::SignUpForm;

#[test]
fn five_failed_attempts_lock_out() {
    assert_eq!(MAX_LOGIN_ATTEMPTS, 5);
    assert_eq!(ATTEMPT_WINDOW_SECONDS, 60);
    assert!(!is_rate_limited(0));
    assert!(!is_rate_limited(4));
    assert!(is_rate_limited(5));
    assert!(is_rate_limited(6));
    assert!(!is_rate_limited(-1));
}

#[test]
fn login_outcomes() {
    assert_eq!(login_outcome(0, true, true), LoginOutcome::Granted);
    assert_eq!(login_outcome(4, true, true), LoginOutcome::Granted);
    assert_eq!(login_outcome(5, true, true), LoginOutcome::RateLimited);
    assert_eq!(login_outcome(0, true, false), LoginOutcome::Denied);
    assert_eq!(login_outcome(0, false, true), LoginOutcome::Denied);
    assert_eq!(login_outcome(0, false, false), LoginOutcome::Denied);
    assert_eq!(login_outcome(9, false, false), LoginOutcome::RateLimited);
}

#[test]
fn rate_limit_key_names_the_address() {
    let form = LoginForm { email: "a@b.c".to_string(), password: "pw".to_string() };
    assert_eq!(form.rate_limit_key(), "login_attempts:a@b.c");
}

#[test]
fn signup_form_fields() {
    let form = SignUpForm {
        email: "a@b.c".to_string(),
        name: "Ada".to_string(),
        password: "pw".to_string(),
    };
    assert_eq!(form.email, "a@b.c");
    assert_eq!(form.name, "Ada");
    assert_eq!(form.password, "pw");
}
