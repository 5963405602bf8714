use identity_access::avatar::avatar_url;
use identity_access::confirmation::{
    begin_confirmation, begin_confirmation_at, conclude_confirmation, confirmation_step,
    ConfirmationStart,
};
use identity_access::login::{
    grant, login, login_at, password_check_due, LoginOutcome, LoginResponse, SessionCookie,
    UserRecord,
};
use identity_access::guard::{guard_owner, OwnerGate};
use identity_access::profile::{
    plan_username_change, read_reply, text_or_empty, update_reply,
    username_availability, LinksResponse, LinksRow, ProfileResponse, ProfileRow,
    UserResponse, UserRow, UsernameChange, UR,
};
use identity_access::registration::{
    after_delivery, after_insert, after_insert_at, begin_registration, confirmation_mail,
    InsertFailure, MailSettings, Register, RegistrationProgress, RegistrationStart,
};
use identity_access::reply::{OutcomeKind, Reply};
use identity_access::session::{SessionClaims, SessionService};
use identity_access::token::{TokenError, TokenService};

fn form(password: &str, confirm: &str) -> Register {
    Register {
        username: "bob".to_string(),
        email: "bob@x.com".to_string(),
        password: password.to_string(),
        confirm_password: confirm.to_string(),
    }
}

fn settings() -> MailSettings {
    MailSettings {
        from_name: "Admin".to_string(),
        from_email: "admin@example.org".to_string(),
        host: "example.org".to_string(),
    }
}

fn user(verified: bool) -> UserRecord {
    UserRecord {
        id: 7,
        username: "bob".to_string(),
        email: "bob@x.com".to_string(),
        password_hash: "hash".to_string(),
        email_verified: verified,
        image_url: "img".to_string(),
    }
}

fn tokens() -> TokenService {
    TokenService::new(b"secret".to_vec())
}

fn sessions() -> SessionService {
    SessionService::new(b"jwt-secret".to_vec())
}

#[test]
fn avatar_is_derived_from_the_address() {
    assert_eq!(
        avatar_url("bob@x.com"),
        "https://www.gravatar.com/avatar/5cb6a827a3eaf66640c2cbe61a94454b"
    );
    assert_eq!(
        avatar_url(""),
        "https://www.gravatar.com/avatar/d41d8cd98f00b204e9800998ecf8427e"
    );
    assert_eq!(avatar_url("bob@x.com"), avatar_url("bob@x.com"));
    for email in ["bob@x.com", "", "\u{00e9}@x"] {
        let url = avatar_url(email);
        let digest = url.strip_prefix("https://www.gravatar.com/avatar/").unwrap();
        assert_eq!(digest.len(), 32);
        assert!(digest.chars().all(|c| matches!(c, '0'..='9' | 'a'..='f')));
    }
    assert_ne!(avatar_url("bob@x.com"), avatar_url("Bob@x.com"));
}

#[test]
fn register_bob_issues_token_for_his_address() {
    let form = form("Secret1!", "Secret1!");
    assert!(form.match_password());
    let start = begin_registration(&form, None);
    let new_user = match start {
        RegistrationStart::Insert(user) => user,
        RegistrationStart::Rejected(reply) => panic!("refused: {:?}", reply),
    };
    assert_eq!(new_user.display_name, "bob");
    assert_eq!(new_user.email, "bob@x.com");
    assert_eq!(new_user.image_url, avatar_url("bob@x.com"));
    let progress = after_insert_at(&form, Ok(1), &settings(), &tokens(), 1700000000);
    let (mail, rows) = match progress {
        RegistrationProgress::Deliver { mail, rows } => (mail, rows),
        RegistrationProgress::Rejected(reply) => panic!("refused: {:?}", reply),
    };
    assert_eq!(rows, 1);
    assert_eq!(mail.from, "Admin<admin@example.org>");
    assert_eq!(mail.to, "bob@x.com");
    assert_eq!(mail.subject, "Registration at Kunjika");
    let token = "bob@x.com.1700000000.Nz4JkUmD9b8PhKNPEHYL7OyMSRpZqKOzet_0ll1RF-w";
    assert_eq!(
        mail.body,
        format!(
            "Hi bob,\n\nThank you for registering at Kunjika.\nYour email confirmation link is https://example.org/confirm-email/{}.\nThis email will expire in one day.\n\nThanks,\nShiv",
            token
        )
    );
    assert_eq!(tokens().verify_at(token, 1700000000), Ok("bob@x.com".to_string()));
    let answer = after_delivery(rows, true);
    assert_eq!(answer.reply.code, 200);
    assert_eq!(answer.reply.kind, OutcomeKind::Success);
    assert_eq!(answer.reply.message, "ok");
    assert_eq!(answer.data, 1);
}

#[test]
fn registration_with_the_clock_issues_a_valid_token() {
    let form = form("Secret1!", "Secret1!");
    let progress = after_insert(&form, Ok(1), &settings(), &tokens());
    let mail = match progress {
        RegistrationProgress::Deliver { mail, .. } => mail,
        RegistrationProgress::Rejected(reply) => panic!("refused: {:?}", reply),
    };
    let start = mail.body.find("/confirm-email/").unwrap() + "/confirm-email/".len();
    let end = mail.body.find(".\nThis email").unwrap();
    let token = &mail.body[start..end];
    assert_eq!(tokens().verify(token), Ok("bob@x.com".to_string()));
}

#[test]
fn registration_refuses_differing_passwords() {
    let form = form("Secret1!", "Secret2!");
    assert!(!form.match_password());
    match begin_registration(&form, None) {
        RegistrationStart::Rejected(reply) => {
            assert_eq!(reply.code, 400);
            assert_eq!(reply.kind, OutcomeKind::InvalidInput);
            assert_eq!(reply.message, "Passwords are bad!");
        }
        RegistrationStart::Insert(user) => panic!("accepted: {:?}", user),
    }
}

#[test]
fn registration_refuses_a_form_of_the_wrong_shape_first() {
    let form = form("Secret1!", "Secret2!");
    match begin_registration(&form, Some("email: not an address")) {
        RegistrationStart::Rejected(reply) => {
            assert_eq!(reply.code, 400);
            assert_eq!(reply.kind, OutcomeKind::InvalidInput);
            assert_eq!(reply.message, "email: not an address");
        }
        RegistrationStart::Insert(user) => panic!("accepted: {:?}", user),
    }
}

#[test]
fn registration_conflict_does_not_say_which_field() {
    let form = form("Secret1!", "Secret1!");
    match after_insert_at(&form, Err(InsertFailure::Conflict), &settings(), &tokens(), 5) {
        RegistrationProgress::Rejected(reply) => {
            assert_eq!(reply.code, 409);
            assert_eq!(reply.kind, OutcomeKind::Conflict);
            assert_eq!(reply.message, "Either email or username is taken.");
        }
        RegistrationProgress::Deliver { mail, .. } => panic!("mail: {:?}", mail),
    }
    match after_insert(&form, Err(InsertFailure::Conflict), &settings(), &tokens()) {
        RegistrationProgress::Rejected(reply) => assert_eq!(reply.code, 409),
        RegistrationProgress::Deliver { mail, .. } => panic!("mail: {:?}", mail),
    }
}

#[test]
fn registration_storage_failure_is_a_server_error_and_no_conflict() {
    let form = form("Secret1!", "Secret1!");
    match after_insert_at(&form, Err(InsertFailure::Storage), &settings(), &tokens(), 5) {
        RegistrationProgress::Rejected(reply) => {
            assert_eq!(reply.code, 500);
            assert_eq!(reply.kind, OutcomeKind::StorageError);
            assert_eq!(reply.message, "Internal server error");
        }
        RegistrationProgress::Deliver { mail, .. } => panic!("mail: {:?}", mail),
    }
    match after_insert(&form, Err(InsertFailure::Storage), &settings(), &tokens()) {
        RegistrationProgress::Rejected(reply) => assert_eq!(reply.code, 500),
        RegistrationProgress::Deliver { mail, .. } => panic!("mail: {:?}", mail),
    }
}

#[test]
fn registration_stands_when_the_mail_fails() {
    let answer = after_delivery(1, false);
    assert_eq!(answer.reply.code, 502);
    assert_eq!(answer.reply.kind, OutcomeKind::DeliveryError);
    assert_eq!(answer.reply.message, "ok");
    assert_eq!(answer.data, 0);
}

#[test]
fn confirmation_mail_text() {
    let mail = confirmation_mail("al", "al@x.org", &settings(), "T");
    assert_eq!(mail.to, "al@x.org");
    assert_eq!(
        mail.body,
        "Hi al,\n\nThank you for registering at Kunjika.\nYour email confirmation link is https://example.org/confirm-email/T.\nThis email will expire in one day.\n\nThanks,\nShiv"
    );
}

#[test]
fn login_with_unverified_email_is_unauthenticated() {
    let account = user(false);
    assert!(!password_check_due(Some(&account)));
    for password_ok in [true, false] {
        let outcome = login_at(Some(&account), "bob@x.com", false, password_ok, &sessions(), 1000, "c");
        assert!(matches!(outcome, LoginOutcome::Unauthenticated));
        let outcome = login(Some(&account), "bob@x.com", false, password_ok, &sessions());
        assert!(matches!(outcome, LoginOutcome::Unauthenticated));
    }
}

#[test]
fn login_without_account_is_unauthenticated() {
    assert!(!password_check_due(None));
    for password_ok in [true, false] {
        let outcome = login_at(None, "bob@x.com", true, password_ok, &sessions(), 1000, "c");
        assert!(matches!(outcome, LoginOutcome::Unauthenticated));
        let outcome = login(None, "bob@x.com", true, password_ok, &sessions());
        assert!(matches!(outcome, LoginOutcome::Unauthenticated));
    }
}

#[test]
fn login_with_wrong_password_is_unauthenticated() {
    let account = user(true);
    assert!(password_check_due(Some(&account)));
    let outcome = login_at(Some(&account), "bob@x.com", true, false, &sessions(), 1000, "c");
    assert!(matches!(outcome, LoginOutcome::Unauthenticated));
    let outcome = login(Some(&account), "bob@x.com", true, false, &sessions());
    assert!(matches!(outcome, LoginOutcome::Unauthenticated));
}

#[test]
fn login_grants_a_session_cookie() {
    let account = user(true);
    let outcome = login_at(Some(&account), "Bob@X.com", true, true, &sessions(), 1000, "csrf");
    let (cookie, body) = match outcome {
        LoginOutcome::Granted { cookie, body } => (cookie, body),
        other => panic!("not granted: {:?}", other),
    };
    assert_eq!(body, LoginResponse { success: true });
    assert_eq!(cookie.name, "jwt");
    assert_eq!(cookie.domain, "localhost");
    assert_eq!(cookie.path, "/");
    assert!(cookie.secure);
    assert!(cookie.http_only);
    let claims = sessions().decode_at(&cookie.value, 1000).unwrap();
    assert_eq!(claims.user_id, 7);
    assert_eq!(claims.username, "bob");
    assert_eq!(claims.subject, "bob");
    assert_eq!(claims.email, "Bob@X.com");
    assert_eq!(claims.image_url, "img");
    assert_eq!(claims.anti_csrf_token, "csrf");
    assert_eq!(claims.expires_at, 1000 + 30 * 86400);
}

#[test]
fn login_with_the_clock_grants_a_readable_credential() {
    let account = user(true);
    let outcome = login(Some(&account), "bob@x.com", false, true, &sessions());
    let cookie = match outcome {
        LoginOutcome::Granted { cookie, .. } => cookie,
        other => panic!("not granted: {:?}", other),
    };
    let claims = sessions().decode(&cookie.value).unwrap();
    assert_eq!(claims.user_id, 7);
    assert_eq!(claims.email, "bob@x.com");
}

#[test]
fn granted_login_carries_the_token() {
    assert_eq!(LoginOutcome::Unauthenticated.code(), 401);
    let credential = sessions().issue_at(7, "bob", "bob@x.com", "img", true, 1000, "c");
    let token = credential.token.clone();
    match grant(credential) {
        LoginOutcome::Granted { cookie, body } => {
            assert_eq!(cookie.value, token);
            assert!(body.success);
            assert_eq!(LoginOutcome::Granted { cookie, body }.code(), 200);
        }
        other => panic!("not granted: {:?}", other),
    }
}

#[test]
fn session_cookie_attributes() {
    let cookie = SessionCookie::for_token("t".to_string());
    assert_eq!(cookie.value, "t");
    assert_eq!(cookie.name, "jwt");
    assert_eq!(cookie.domain, "localhost");
    assert_eq!(cookie.path, "/");
    assert!(cookie.secure && cookie.http_only);
}

#[test]
fn confirm_email_with_old_token_is_expired() {
    let svc = tokens();
    let token = svc.sign_at("bob@x.com", 1700000000);
    let later = 1700000000 + 25 * 3600;
    match begin_confirmation_at(&token, &svc, later) {
        ConfirmationStart::Rejected(reply) => {
            assert_eq!(reply.kind, OutcomeKind::Expired);
            assert_ne!(reply.kind, OutcomeKind::Unauthenticated);
            assert_eq!(reply.code, 400);
            assert_eq!(reply.message, "Bad request");
        }
        ConfirmationStart::MarkVerified(email) => panic!("accepted: {}", email),
    }
}

#[test]
fn confirm_email_in_time_marks_the_address() {
    let svc = tokens();
    let token = svc.sign_at("bob@x.com", 1700000000);
    match begin_confirmation_at(&token, &svc, 1700000000 + 3600) {
        ConfirmationStart::MarkVerified(email) => assert_eq!(email, "bob@x.com"),
        ConfirmationStart::Rejected(reply) => panic!("refused: {:?}", reply),
    }
    let fresh = svc.sign("carol@x.com");
    match begin_confirmation(&fresh, &svc) {
        ConfirmationStart::MarkVerified(email) => assert_eq!(email, "carol@x.com"),
        ConfirmationStart::Rejected(reply) => panic!("refused: {:?}", reply),
    }
}

#[test]
fn confirm_email_with_forged_token_is_unauthenticated() {
    let svc = tokens();
    let token = svc.sign_at("bob@x.com", 1700000000).replacen("bob", "eve", 1);
    match begin_confirmation_at(&token, &svc, 1700000000) {
        ConfirmationStart::Rejected(reply) => {
            assert_eq!(reply.kind, OutcomeKind::Unauthenticated);
            assert_eq!(reply.code, 401);
            assert_eq!(reply.message, "Invalid confirmation link");
        }
        ConfirmationStart::MarkVerified(email) => panic!("accepted: {}", email),
    }
    match confirmation_step(Err(TokenError::InvalidSignature)) {
        ConfirmationStart::Rejected(reply) => assert_eq!(reply.code, 401),
        ConfirmationStart::MarkVerified(email) => panic!("accepted: {}", email),
    }
}

#[test]
fn confirmation_answers() {
    let done = conclude_confirmation(true);
    assert_eq!((done.code, done.kind, done.message.as_str()), (200, OutcomeKind::Success, "Email verified"));
    let again = conclude_confirmation(true);
    assert_eq!(again.code, 200);
    let failed = conclude_confirmation(false);
    assert_eq!(
        (failed.code, failed.kind, failed.message.as_str()),
        (500, OutcomeKind::StorageError, "Internal server error")
    );
    assert_ne!(failed.kind, OutcomeKind::Expired);
    assert_ne!(failed.kind, OutcomeKind::NotFound);
    let generic = Reply::server_error();
    assert_eq!((generic.code, generic.message.as_str()), (500, "Internal server error"));
}

#[test]
fn username_is_free_where_none_was_found() {
    let taken = username_availability(true);
    assert!(!taken.body.success);
    assert_eq!(taken.reply.code, 200);
    assert_eq!(taken.reply.message, "username unavailable");
    let free = username_availability(false);
    assert!(free.body.success);
    assert_eq!(free.reply.code, 200);
    assert_eq!(free.reply.message, "username available");
}

#[test]
fn update_username_to_a_taken_name_reports_no_success() {
    let owner = SessionClaims::issued(7, "bob", "bob@x.com", "img", false, 100, "c");
    assert!(matches!(guard_owner(&owner, 7), OwnerGate::Proceed));
    assert_eq!(plan_username_change(true), UsernameChange::Taken);
    let answer = update_reply(Ok(false));
    assert_eq!(answer.success, Some(false));
    assert_eq!(answer.reply.code, 200);
    assert_eq!(answer.reply.kind, OutcomeKind::Success);
    assert_eq!(answer.reply.message, "");
    assert_eq!(plan_username_change(false), UsernameChange::Store);
    assert_eq!(update_reply(Ok(true)).success, Some(true));
}

#[test]
fn update_by_another_user_is_refused_before_storage() {
    let other = SessionClaims::issued(8, "eve", "eve@x.com", "img", false, 100, "c");
    match guard_owner(&other, 7) {
        OwnerGate::Rejected(reply) => {
            assert_eq!(reply.code, 401);
            assert_eq!(reply.kind, OutcomeKind::Unauthorized);
            assert_eq!(reply.message, "");
        }
        OwnerGate::Proceed => panic!("let through"),
    }
}

#[test]
fn storage_complaint_is_a_server_error() {
    let answer = update_reply(Err("connection reset".to_string()));
    assert_eq!(answer.success, None);
    assert_eq!(answer.reply.code, 500);
    assert_eq!(answer.reply.kind, OutcomeKind::StorageError);
    assert_eq!(answer.reply.message, "connection reset");
}

#[test]
fn read_answers() {
    let found = read_reply(true);
    assert_eq!((found.code, found.kind, found.message.as_str()), (200, OutcomeKind::Success, ""));
    let missing = read_reply(false);
    assert_eq!((missing.code, missing.kind, missing.message.as_str()), (400, OutcomeKind::NotFound, "Bad request!"));
    let plain = Reply::new(418, OutcomeKind::InvalidInput, "teapot");
    assert_eq!((plain.code, plain.message.as_str()), (418, "teapot"));
    assert_eq!(Reply::bare(204, OutcomeKind::Success).message, "");
}

#[test]
fn null_columns_are_shown_empty() {
    assert_eq!(text_or_empty(&None), "");
    assert_eq!(text_or_empty(&Some("x".to_string())), "x");
    let row = ProfileRow {
        display_name: Some("bob".to_string()),
        title: None,
        designation: Some("dev".to_string()),
        location: None,
        profile_image_url: Some("img".to_string()),
        git: None,
        website_url: Some("https://bob.example".to_string()),
        twitter: None,
        reputation: None,
    };
    let profile = ProfileResponse::from_row(&row);
    assert_eq!(profile.username, "bob");
    assert_eq!(profile.title, "");
    assert_eq!(profile.designation, "dev");
    assert_eq!(profile.location, "");
    assert_eq!(profile.image_url, "img");
    assert_eq!(profile.git, "");
    assert_eq!(profile.website, "https://bob.example");
    assert_eq!(profile.twitter, "");
    assert_eq!(profile.karma, "1");
}

#[test]
fn karma_is_the_reputation_in_decimal() {
    let mut row = ProfileRow {
        display_name: None,
        title: None,
        designation: None,
        location: None,
        profile_image_url: None,
        git: None,
        website_url: None,
        twitter: None,
        reputation: Some(1234),
    };
    assert_eq!(ProfileResponse::from_row(&row).karma, "1234");
    row.reputation = Some(-5);
    assert_eq!(ProfileResponse::from_row(&row).karma, "-5");
    row.reputation = Some(0);
    assert_eq!(ProfileResponse::from_row(&row).karma, "0");
}

#[test]
fn links_and_listing_follow_the_rows() {
    let links = LinksResponse::from_row(&LinksRow {
        website_url: None,
        git: Some("g".to_string()),
        twitter: Some("t".to_string()),
    });
    assert_eq!((links.website.as_str(), links.git.as_str(), links.twitter.as_str()), ("", "g", "t"));
    let rows = vec![
        UserRow { id: 3, display_name: Some("a".to_string()), location: None, profile_image_url: None },
        UserRow { id: -1, display_name: None, location: Some("x".to_string()), profile_image_url: Some("i".to_string()) },
    ];
    let listing = UserResponse::from_rows(&rows);
    assert_eq!(listing.users.len(), 2);
    assert_eq!(listing.users[0].id, "3");
    assert_eq!(listing.users[0].display_name, "a");
    assert_eq!(listing.users[0].location, "");
    assert_eq!(listing.users[1].id, "-1");
    assert_eq!(listing.users[1].display_name, "");
    assert_eq!(listing.users[1].location, "x");
    assert_eq!(listing.users[1].profile_image_url, "i");
    assert!(UserResponse::from_rows(&Vec::new()).users.is_empty());
    let entry = UR::from_row(&rows[0]);
    assert_eq!(entry.id, "3");
}
