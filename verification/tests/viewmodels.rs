use identity::counter::Counter;
use identity::err::IdentityError;
use identity::flag_set::FlagSet;
use identity::generic_token::GenericTokenViewModel;
use identity::key::ApiKey;
use identity::key::HEADER_API_KEY;
use identity::mail_struct::Report;
use identity::traits::t_user::UserTrait;
use identity::traits::token::TokenContainerTrait;
use identity::user::identity_user::IdentityUser;
use identity::viewmodels::admin::all_users::AllNonAdminUsersViewModel;
use identity::viewmodels::admin::create_user::AdminCreateUserViewModel;
use identity::viewmodels::admin::update_user::AdminUpdateUserViewModel;
use identity::viewmodels::admin::update_user_pwd::AdminChangePasswordUserViewModel;
use identity::viewmodels::auth::change_pwd::ChangeForgottenPassword;
use identity::viewmodels::auth::login::LoginViewModel;
use identity::viewmodels::auth::person_info::PersonInfoViewModel;
use identity::viewmodels::auth::registration::RegistrationViewModel;
use identity::viewmodels::auth::token::TokenHolderViewModel;
use identity::viewmodels::auth::update_pwd::ChangePasswordViewModel;
use identity::viewmodels::auth::update_user::UpdateUserViewModel;
use identity::viewmodels::auth::user_id::UserIdViewModel;

#[test]
fn requests_keep_their_values() {
    let m = AdminCreateUserViewModel::new("e", "p", "c");
    assert_eq!((m.get_email(), m.get_password(), m.get_confirmed_password()), ("e", "p", "c"));
    let m = identity::viewmodels::admin::delete_user::DeleteUserViewModel::new("u");
    assert_eq!(m.get_user_id(), "u");
    let m = AdminUpdateUserViewModel::new("u", Some("e".to_string()), None);
    assert_eq!(m.get_user_id(), "u");
    assert_eq!(m.get_new_email(), Some("e"));
    assert_eq!(m.get_new_user_name(), None);
    assert_eq!(m.new_email, Some("e".to_string()));
    let m = AdminChangePasswordUserViewModel::new("u", "p", "c");
    assert_eq!((m.get_id_user(), m.get_password(), m.get_confirm_password()), ("u", "p", "c"));
    let m = ChangeForgottenPassword::new("t", "p", "c");
    assert_eq!((m.get_token_forgotten_pwd(), m.get_password(), m.get_confirm_password()), ("t", "p", "c"));
    let m = identity::viewmodels::auth::delete_user::DeleteUserViewModel::new("p", true);
    assert_eq!(m.get_password(), "p");
    assert!(m.is_delete_confirmed());
    let m = LoginViewModel::new("e", "p");
    assert_eq!((m.get_email(), m.get_password()), ("e", "p"));
    let m = RegistrationViewModel::new("e", "p", "c");
    assert_eq!((m.get_email(), m.get_password(), m.get_confirmed_password()), ("e", "p", "c"));
    let m = ChangePasswordViewModel::new("p", "c");
    assert_eq!((m.get_password(), m.get_confirm_password()), ("p", "c"));
    let m = UpdateUserViewModel::new(None, Some("n".to_string()));
    assert_eq!(m.get_new_email(), None);
    assert_eq!(m.get_new_user_name(), Some("n"));
    assert_eq!(m.new_user_name, Some("n".to_string()));
    let m = identity::viewmodels::auth::flag::FlagHolder::new("f");
    assert_eq!(m.get_flag(), "f");
    let m = UserIdViewModel::new("i");
    assert_eq!(m.get_id(), "i");
    let m = TokenHolderViewModel::new("t");
    assert_eq!(m.get_token(), "t");
    let m = GenericTokenViewModel::new("t", LoginViewModel::new("e", "p"));
    assert_eq!(m.get_token(), "t");
    assert_eq!(m.get_model().get_email(), "e");
    let k = ApiKey("k".to_string());
    assert_eq!(k.get_key(), "k");
    assert_eq!(HEADER_API_KEY, "X-API-Key");
}

#[test]
fn person_info_shows_a_user() {
    let mut flags = FlagSet::new();
    flags.insert("editor");
    flags.insert("owner");
    let u = IdentityUser::from_parts("id-1", "a@b.c", "hash", "salt", "Ann", flags);
    let info = PersonInfoViewModel::from_identity_user(&u);
    assert_eq!(info.get_id(), "id-1");
    assert_eq!(info.get_email(), "a@b.c");
    assert_eq!(info.get_user_name(), "Ann");
    assert!(!info.is_admin());
    assert_eq!(info.get_flags(), &vec!["editor".to_string(), "owner".to_string()]);
    let a = IdentityUser::admin().unwrap();
    assert!(PersonInfoViewModel::from_identity_user(&a).is_admin());
    let all = AllNonAdminUsersViewModel::from_users_vector(vec![u.clone(), a, u]);
    assert_eq!(all.users.len(), 3);
    assert_eq!(all.users[0].get_id(), "id-1");
    assert_eq!(all.users[1].get_id(), "ADMIN");
    assert!(all.users[1].is_admin());
    assert_eq!(all.users[2].get_email(), "a@b.c");
    assert!(AllNonAdminUsersViewModel::from_users_vector(Vec::new()).users.is_empty());
    assert_eq!(u_id_of(&all), "id-1");
}

fn u_id_of(all: &AllNonAdminUsersViewModel) -> String {
    all.users[0].get_id().to_string()
}

#[test]
fn report_wants_an_address_and_a_subject() {
    let r = Report::new("a@b.c", "Ann", "Welcome", "Hello").ok().unwrap();
    assert_eq!(r.get_recipient(), "a@b.c");
    assert_eq!(r.get_alias(), "Ann");
    assert_eq!(r.get_subject(), "Welcome");
    assert_eq!(r.get_message(), "Hello");
    assert_eq!(
        Report::new("@", "Ann", "Welcome", "Hello").err(),
        Some(IdentityError::EmailNotCorrectFormat)
    );
    assert_eq!(
        Report::new("", "Ann", "", "Hello").err(),
        Some(IdentityError::EmailNotCorrectFormat)
    );
    assert_eq!(
        Report::new("a@b.c", "Ann", "", "Hello").err(),
        Some(IdentityError::CustomError("Subject of the email is empty".to_string()))
    );
    assert!(Report::new("a@b.c", "", "s", "").is_ok());
}

#[test]
fn counter_counts_by_method() {
    let mut c = Counter::default();
    assert_eq!((c.get(), c.post(), c.put(), c.delete()), (0, 0, 0, 0));
    c.increment_get();
    c.increment_get();
    c.increment_post();
    c.increment_put();
    c.increment_put();
    c.increment_put();
    c.increment_delete();
    assert_eq!((c.get(), c.post(), c.put(), c.delete()), (2, 1, 3, 1));
}

#[test]
fn errors_have_their_sentences() {
    assert_eq!(IdentityError::EmailNotCorrectFormat.message(), "Email is not in the correct form");
    assert_eq!(IdentityError::EmailIsEmpty.message(), "Email cannot be empty");
    assert_eq!(IdentityError::EmailIsAlreadyTaken.message(), "User email is already taken");
    assert_eq!(IdentityError::IdIsAlreadyTaken.message(), "User id is already taken");
    assert_eq!(
        IdentityError::EmailAndPasswordIsEmpty.message(),
        "Email and password can't be equal to nothing"
    );
    assert_eq!(IdentityError::PasswordIsNotCorrect.message(), "Password is not right");
    assert_eq!(IdentityError::PasswordIsEmpty.message(), "Password cannot be empty");
    assert_eq!(IdentityError::PasswordCannotBeMade.message(), "Password couldn't be made");
    assert_eq!(
        IdentityError::PasswordAndPasswordConfirmedNotEqual.message(),
        "Password and confirmed password aren't the same"
    );
    assert_eq!(
        IdentityError::FirstAndLastNameIsEmpty.message(),
        "The first and last name can't be empty"
    );
    assert_eq!(IdentityError::FirstNameIsEmpty.message(), "The firstname can't be empty");
    assert_eq!(IdentityError::LastNameIsEmpty.message(), "The last name can't be empty");
    assert_eq!(IdentityError::UserNotFound.message(), "User cannot be found");
    assert_eq!(IdentityError::UserCannotBeAdded.message(), "User cannot be added");
    assert_eq!(IdentityError::UserAlreadyPresent.message(), "User is already present");
    assert_eq!(IdentityError::UserIsNotPresent.message(), "User is not present");
    assert_eq!(
        IdentityError::UserDeleteFailed.message(),
        "The user's password wasn't correct or delete confirmation was not set to true"
    );
    assert_eq!(IdentityError::UserCannotBeUpdated.message(), "User cannot be updated.");
    assert_eq!(IdentityError::IdEqualsAdmin.message(), "The given id equals to the id of the admin");
    assert_eq!(
        IdentityError::IdNotEqualToAdmin.message(),
        "The given id isn't equals to the id of the admin"
    );
    assert_eq!(IdentityError::AdminNotPresent.message(), "Admin is not present");
    assert_eq!(IdentityError::SubjectOfTokenIsEmpty.message(), "The subject is empty");
    assert_eq!(
        IdentityError::TokenCannotBeMadeFromClaim.message(),
        "Couldn't create a token out of a claim"
    );
    assert_eq!(IdentityError::TokenIsEmpty.message(), "Token cannot be emtpy");
    assert_eq!(IdentityError::TokenIsInvalid.message(), "Token is invalid");
    assert_eq!(IdentityError::IssuerIsInvalid.message(), "Issuer is invalid");
    assert_eq!(IdentityError::SignatureHasExpired.message(), "Signature has expired");
    assert_eq!(IdentityError::SmtpDomainNotGood.message(), "Stmp domain is not good");
    assert_eq!(
        IdentityError::CouldNotSendEmail.message(),
        "Could not send the email throught the smtp transport"
    );
    assert_eq!(IdentityError::CustomError("anything".to_string()).message(), "anything");
    assert_eq!(IdentityError::CustomError(String::new()).message(), "");
}
