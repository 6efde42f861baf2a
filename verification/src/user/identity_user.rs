use vstd::prelude::*;
use vstd::utf8::encode_utf8;
use vstd::utf8::is_ascii_chars;
use vstd::utf8::is_ascii_chars_encode_utf8;
use crate::credential::argon2_encoded;
use crate::credential::hash_password;
use crate::credential::hashable;
use crate::credential::hashed_from;
use crate::credential::password_matches;
use crate::credential::verify_password;
use crate::err::IdentityError;
use crate::flag_set::texts;
use crate::text_order::ascending;
use crate::flag_set::FlagSet;
use crate::traits::t_user::UserTrait;
use crate::util::control_email;
use crate::util::email_format_ok;
use crate::util::get_hash;
use crate::util::is_hex_text;
use crate::util::same_text;

verus! {

/// The id that only the administrator's record has.
pub const RESERVED_ID: &'static str = "ADMIN";

/// The administrator's email address.
pub const ADMIN_EMAIL: &'static str = "email.admin@server.com";

/// The length of a salt.
pub const SALT_LENGTH: usize = 8;

/// The length of a generated id.
pub const ID_LENGTH: usize = 21;

/// A user record as a value: what is stored of a user.
pub struct UserRecord {
    pub id: Seq<char>,
    pub email: Seq<char>,
    pub hashed_password: Seq<char>,
    pub security_stamp: Seq<char>,
    pub user_name: Seq<char>,
    pub flags: Set<Seq<char>>,
}

/// A salt as this library draws them: eight hexadecimal symbols.
pub open spec fn is_salt(s: Seq<char>) -> bool {
    s.len() == SALT_LENGTH && is_hex_text(s)
}

/// An id as this library draws them: twenty-one hexadecimal symbols.
pub open spec fn is_generated_id(s: Seq<char>) -> bool {
    s.len() == ID_LENGTH && is_hex_text(s)
}

/// A password that the hashing primitive takes under any salt of this
/// library's.
pub open spec fn password_fits(pwd: Seq<char>) -> bool {
    encode_utf8(pwd).len() <= 0xFFFF_FFFF
}

/// The record that is made of an id, an email address, a display name, a
/// password and the salt to hash it with; or why none is made. The checks come
/// in this order: the email address is there, the password is there, the
/// address has the format, the password can be hashed.
pub open spec fn built(
    id: Seq<char>,
    email: Seq<char>,
    user_name: Seq<char>,
    pwd: Seq<char>,
    salt: Seq<char>,
) -> Result<UserRecord, IdentityError> {
    if email.len() == 0 {
        Err(IdentityError::EmailIsEmpty)
    } else if pwd.len() == 0 {
        Err(IdentityError::PasswordIsEmpty)
    } else if !email_format_ok(email) {
        Err(IdentityError::EmailNotCorrectFormat)
    } else {
        match argon2_encoded(pwd, salt) {
            None => Err(IdentityError::PasswordCannotBeMade),
            Some(h) => Ok(
                UserRecord {
                    id,
                    email,
                    hashed_password: h,
                    security_stamp: salt,
                    user_name,
                    flags: Set::empty(),
                },
            ),
        }
    }
}

/// `after` is `before` with a new credential for the password `pwd`: a salt
/// of this library's as security stamp, and the hash of `pwd` under it.
pub open spec fn recredentialed(before: UserRecord, after: UserRecord, pwd: Seq<char>) -> bool {
    &&& is_salt(after.security_stamp)
    &&& argon2_encoded(pwd, after.security_stamp) == Some(after.hashed_password)
    &&& after == (UserRecord {
        hashed_password: after.hashed_password,
        security_stamp: after.security_stamp,
        ..before
    })
}

/// Why no record is made of this address and password, whatever the salt,
/// if none is.
pub open spec fn making_refusal(email: Seq<char>, pwd: Seq<char>) -> Option<IdentityError> {
    if email.len() == 0 {
        Some(IdentityError::EmailIsEmpty)
    } else if pwd.len() == 0 {
        Some(IdentityError::PasswordIsEmpty)
    } else if !email_format_ok(email) {
        Some(IdentityError::EmailNotCorrectFormat)
    } else if !password_fits(pwd) {
        Some(IdentityError::PasswordCannotBeMade)
    } else {
        None
    }
}

/// The inputs of which a record is made, whatever salt is drawn.
pub open spec fn buildable(email: Seq<char>, pwd: Seq<char>) -> bool {
    email.len() > 0 && pwd.len() > 0 && email_format_ok(email) && password_fits(pwd)
}

/// A result with the user in it seen as a value.
pub open spec fn user_result(r: Result<IdentityUser, IdentityError>) -> Result<
    UserRecord,
    IdentityError,
> {
    match r {
        Ok(u) => Ok(u@),
        Err(e) => Err(e),
    }
}

/// A salt of this library's is as long in bytes as in symbols, so the
/// primitive takes it, and whether it hashes depends on the password alone.
pub proof fn lemma_salt_hashable(pwd: Seq<char>, salt: Seq<char>)
    requires
        is_salt(salt),
    ensures
        hashable(pwd, salt) == password_fits(pwd),
{
    assert(is_ascii_chars(salt)) by {
        assert forall|i: int| 0 <= i < salt.len() implies '\0' <= #[trigger] salt[i] <= '\u{7f}' by {}
    }
    is_ascii_chars_encode_utf8(salt);
}

/// A user: id, email, credential (hash and salt), display name and flags.
#[derive(Debug)]
pub struct IdentityUser {
    id: String,
    email: String,
    hashed_password: String,
    security_stamp: String,
    user_name: String,
    flags: FlagSet,
}

impl View for IdentityUser {
    type V = UserRecord;

    closed spec fn view(&self) -> UserRecord {
        UserRecord {
            id: self.id@,
            email: self.email@,
            hashed_password: self.hashed_password@,
            security_stamp: self.security_stamp@,
            user_name: self.user_name@,
            flags: self.flags@,
        }
    }
}

impl Clone for IdentityUser {
    fn clone(&self) -> (r: Self)
        ensures
            r@ == self@,
    {
        IdentityUser {
            id: self.id.clone(),
            email: self.email.clone(),
            hashed_password: self.hashed_password.clone(),
            security_stamp: self.security_stamp.clone(),
            user_name: self.user_name.clone(),
            flags: self.flags.duplicate(),
        }
    }
}

impl IdentityUser {
    /// Tells whether the record has no credential yet: neither hash nor salt.
    pub fn is_pwd_empty(&self) -> (r: bool)
        ensures
            r == (self@.hashed_password.len() == 0 && self@.security_stamp.len() == 0),
    {
        self.hashed_password.as_str().is_empty() && self.security_stamp.as_str().is_empty()
    }

    /// A record made of its six parts as they are.
    pub fn from_parts(
        id: &str,
        email: &str,
        hashed_password: &str,
        security_stamp: &str,
        user_name: &str,
        flags: FlagSet,
    ) -> (r: IdentityUser)
        ensures
            r@ == (UserRecord {
                id: id@,
                email: email@,
                hashed_password: hashed_password@,
                security_stamp: security_stamp@,
                user_name: user_name@,
                flags: flags@,
            }),
    {
        IdentityUser {
            id: id.to_owned(),
            email: email.to_owned(),
            hashed_password: hashed_password.to_owned(),
            security_stamp: security_stamp.to_owned(),
            user_name: user_name.to_owned(),
            flags,
        }
    }

    /// Makes a record of an id, an email address, a display name and a
    /// password, hashing the password under `salt`.
    pub fn with_salt(id: &str, email: &str, user_name: &str, pwd: &str, salt: &str) -> (r: Result<
        IdentityUser,
        IdentityError,
    >)
        ensures
            user_result(r) == built(id@, email@, user_name@, pwd@, salt@),
            r is Ok <==> email@.len() > 0 && pwd@.len() > 0 && email_format_ok(email@) && hashable(
                pwd@,
                salt@,
            ),
    {
        if email.is_empty() {
            return Err(IdentityError::EmailIsEmpty);
        }
        if pwd.is_empty() {
            return Err(IdentityError::PasswordIsEmpty);
        }
        if !control_email(email) {
            return Err(IdentityError::EmailNotCorrectFormat);
        }
        match hash_password(pwd, salt) {
            Ok(hashed_password) => Ok(
                IdentityUser {
                    id: id.to_owned(),
                    email: email.to_owned(),
                    hashed_password,
                    security_stamp: salt.to_owned(),
                    user_name: user_name.to_owned(),
                    flags: FlagSet::new(),
                },
            ),
            Err(e) => Err(e),
        }
    }

    /// Replaces the credential by the hash of `new_pwd` under `salt`, with
    /// `salt` as the new security stamp. An empty password, or one that cannot
    /// be hashed, is refused and changes nothing.
    pub fn set_password_with_salt(&mut self, new_pwd: &str, salt: &str) -> (r: Result<
        (),
        IdentityError,
    >)
        ensures
            new_pwd@.len() == 0 ==> r == Err::<(), IdentityError>(IdentityError::PasswordIsEmpty),
            new_pwd@.len() > 0 && !hashable(new_pwd@, salt@) ==> r == Err::<(), IdentityError>(
                IdentityError::PasswordCannotBeMade,
            ),
            new_pwd@.len() > 0 && hashable(new_pwd@, salt@) ==> r is Ok,
            r is Err ==> final(self)@ == old(self)@,
            r is Ok ==> argon2_encoded(new_pwd@, salt@) is Some && final(self)@ == (UserRecord {
                hashed_password: argon2_encoded(new_pwd@, salt@)->0,
                security_stamp: salt@,
                ..old(self)@
            }),
    {
        if new_pwd.is_empty() {
            return Err(IdentityError::PasswordIsEmpty);
        }
        match hash_password(new_pwd, salt) {
            Ok(hashed_password) => {
                self.security_stamp = salt.to_owned();
                self.hashed_password = hashed_password;
                Ok(())
            },
            Err(e) => Err(e),
        }
    }
}

impl UserTrait for IdentityUser {
    /// The id.
    fn get_id(&self) -> (r: &str)
        ensures
            r@ == self@.id,
    {
        self.id.as_str()
    }

    /// The email address.
    fn get_email(&self) -> (r: &str)
        ensures
            r@ == self@.email,
    {
        self.email.as_str()
    }

    /// The hash of the password.
    fn get_hashed_password(&self) -> (r: &str)
        ensures
            r@ == self@.hashed_password,
    {
        self.hashed_password.as_str()
    }

    /// The salt under which the password was hashed.
    fn get_security_stamp(&self) -> (r: &str)
        ensures
            r@ == self@.security_stamp,
    {
        self.security_stamp.as_str()
    }

    /// The display name.
    fn get_user_name(&self) -> (r: &str)
        ensures
            r@ == self@.user_name,
    {
        self.user_name.as_str()
    }

    /// Replaces the display name.
    fn set_user_name(&mut self, new_user_name: &str)
        ensures
            final(self)@ == (UserRecord { user_name: new_user_name@, ..old(self)@ }),
    {
        self.user_name = new_user_name.to_owned();
    }

    /// Replaces the hash of the password and leaves the salt as it is.
    fn set_hashed_password(&mut self, hashed_password: &str)
        ensures
            final(self)@ == (UserRecord { hashed_password: hashed_password@, ..old(self)@ }),
    {
        self.hashed_password = hashed_password.to_owned();
    }

    /// Replaces the salt and leaves the hash as it is.
    fn set_security_stamp(&mut self, security_stamp: &str)
        ensures
            final(self)@ == (UserRecord { security_stamp: security_stamp@, ..old(self)@ }),
    {
        self.security_stamp = security_stamp.to_owned();
    }

    /// Replaces the flags.
    fn set_flags(&mut self, flags: FlagSet)
        ensures
            final(self)@ == (UserRecord { flags: flags@, ..old(self)@ }),
    {
        self.flags = flags;
    }

    /// The administrator's record: the reserved id, the administrator's
    /// address, the reserved id as first password under a fresh salt, no
    /// display name and no flags. The primitive hashes that password under
    /// every salt, so a record is always made.
    fn admin() -> (r: Result<IdentityUser, IdentityError>)
        ensures
            r is Ok,
            exists|salt: Seq<char>| is_salt(salt) && user_result(r) == built(
                RESERVED_ID@,
                ADMIN_EMAIL@,
                Seq::<char>::empty(),
                RESERVED_ID@,
                salt,
            ),
    {
        let salt = get_hash(SALT_LENGTH);
        proof {
            reveal_strlit("ADMIN");
            reveal_strlit("email.admin@server.com");
            is_ascii_chars_encode_utf8(RESERVED_ID@);
            lemma_salt_hashable(RESERVED_ID@, salt@);
            assert(crate::util::is_email_char(ADMIN_EMAIL@[0]));
        }
        let r = IdentityUser::with_salt(RESERVED_ID, ADMIN_EMAIL, "", RESERVED_ID, salt.as_str());
        proof {
            reveal_strlit("");
            assert(""@ =~= Seq::<char>::empty());
            assert(is_salt(salt@) && user_result(r) == built(
                RESERVED_ID@,
                ADMIN_EMAIL@,
                Seq::<char>::empty(),
                RESERVED_ID@,
                salt@,
            ));
        }
        r
    }

    /// A new user under the id `id`, the password hashed under a fresh salt.
    fn new_user_with_personal_id(id: &str, email: &str, user_name: &str, pwd: &str) -> (r: Result<
        IdentityUser,
        IdentityError,
    >)
        ensures
            r is Ok <==> buildable(email@, pwd@),
            exists|salt: Seq<char>| is_salt(salt) && user_result(r) == built(
                id@,
                email@,
                user_name@,
                pwd@,
                salt,
            ),
    {
        let salt = get_hash(SALT_LENGTH);
        proof {
            lemma_salt_hashable(pwd@, salt@);
        }
        let r = IdentityUser::with_salt(id, email, user_name, pwd, salt.as_str());
        assert(is_salt(salt@) && user_result(r) == built(id@, email@, user_name@, pwd@, salt@));
        r
    }

    /// A new user under a fresh random id, the password hashed under a fresh
    /// salt.
    fn new_user(email: &str, user_name: &str, pwd: &str) -> (r: Result<IdentityUser, IdentityError>)
        ensures
            r is Ok <==> buildable(email@, pwd@),
            exists|id: Seq<char>, salt: Seq<char>|
                is_generated_id(id) && is_salt(salt) && user_result(r) == #[trigger] built(
                    id,
                    email@,
                    user_name@,
                    pwd@,
                    salt,
                ),
    {
        let salt = get_hash(SALT_LENGTH);
        let id = get_hash(ID_LENGTH);
        proof {
            lemma_salt_hashable(pwd@, salt@);
        }
        let r = IdentityUser::with_salt(id.as_str(), email, user_name, pwd, salt.as_str());
        assert(is_generated_id(id@) && is_salt(salt@) && user_result(r) == built(
            id@,
            email@,
            user_name@,
            pwd@,
            salt@,
        ));
        r
    }

    /// Tells whether `pwd` is the user's password. The empty password never
    /// is; a password that the credential was made of always is; and a
    /// credential that the primitive cannot read belongs to no password.
    fn check_pwd(&self, pwd: &str) -> (r: bool)
        ensures
            r == password_matches(self@.hashed_password, pwd@),
            pwd@.len() == 0 ==> !r,
            pwd@.len() > 0 && hashed_from(self@.hashed_password, pwd@) ==> r,
    {
        verify_password(self.hashed_password.as_str(), pwd)
    }

    /// Gives the user the password `new_pwd`, hashed under a fresh salt that
    /// becomes the new security stamp. An empty password, or one too long to
    /// hash, is refused and changes nothing.
    fn set_password(&mut self, new_pwd: &str) -> (r: Result<(), IdentityError>)
        ensures
            new_pwd@.len() == 0 ==> r == Err::<(), IdentityError>(IdentityError::PasswordIsEmpty),
            new_pwd@.len() > 0 && !password_fits(new_pwd@) ==> r == Err::<(), IdentityError>(
                IdentityError::PasswordCannotBeMade,
            ),
            new_pwd@.len() > 0 && password_fits(new_pwd@) ==> r is Ok,
            r is Err ==> final(self)@ == old(self)@,
            r is Ok ==> recredentialed(old(self)@, final(self)@, new_pwd@),
    {
        let salt = get_hash(SALT_LENGTH);
        proof {
            lemma_salt_hashable(new_pwd@, salt@);
        }
        self.set_password_with_salt(new_pwd, salt.as_str())
    }

    /// Gives the user the address `new_email` and tells whether that changed
    /// anything. An empty address is refused; the address that the user has
    /// already is accepted as it is; another one must have the format.
    fn set_email(&mut self, new_email: &str) -> (r: Result<bool, IdentityError>)
        ensures
            r == email_change(old(self)@.email, new_email@),
            final(self)@ == (UserRecord {
                email: if r == Ok::<bool, IdentityError>(true) {
                    new_email@
                } else {
                    old(self)@.email
                },
                ..old(self)@
            }),
    {
        if new_email.is_empty() {
            return Err(IdentityError::EmailIsEmpty);
        }
        if same_text(self.email.as_str(), new_email) {
            return Ok(false);
        }
        if !control_email(new_email) {
            return Err(IdentityError::EmailNotCorrectFormat);
        }
        self.email = new_email.to_owned();
        Ok(true)
    }

    /// A copy of the user's flags.
    fn get_flags(&self) -> (r: FlagSet)
        ensures
            r@ == self@.flags,
    {
        self.flags.duplicate()
    }

    /// The user's flags as a list, each once, in the order of the
    /// dictionary.
    fn get_flag_list(&self) -> (r: Vec<String>)
        ensures
            ascending(texts(r@)),
            texts(r@).no_duplicates(),
            texts(r@).to_set() == self@.flags,
    {
        self.flags.to_list()
    }

    /// Gives the user the flag `flag` and tells whether it was new.
    fn add_flag(&mut self, flag: &str) -> (r: bool)
        ensures
            r == !old(self)@.flags.contains(flag@),
            final(self)@ == (UserRecord { flags: old(self)@.flags.insert(flag@), ..old(self)@ }),
    {
        self.flags.insert(flag)
    }

    /// Takes the flag `flag` from the user and tells whether the user had it.
    fn remove_flag(&mut self, flag: &str) -> (r: bool)
        ensures
            r == old(self)@.flags.contains(flag@),
            final(self)@ == (UserRecord { flags: old(self)@.flags.remove(flag@), ..old(self)@ }),
    {
        self.flags.remove(flag)
    }
}

/// What a change of address from `old_email` to `new_email` answers.
pub open spec fn email_change(old_email: Seq<char>, new_email: Seq<char>) -> Result<
    bool,
    IdentityError,
> {
    if new_email.len() == 0 {
        Err(IdentityError::EmailIsEmpty)
    } else if old_email == new_email {
        Ok(false)
    } else if !email_format_ok(new_email) {
        Err(IdentityError::EmailNotCorrectFormat)
    } else {
        Ok(true)
    }
}

} // verus!
