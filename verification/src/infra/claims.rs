use vstd::prelude::*;

verus! {

#[verifier::external_type_specification]
#[verifier::external_body]
pub struct ExUuid(uuid::Uuid);

#[verifier::external_type_specification]
#[verifier::external_body]
pub struct ExByte(byte_unit::Byte);

/// The claims of a validated JWT, as issued by the OAuth2 provider.
#[derive(Debug)]
pub struct JwtUserClaims {
    /// Subject: the unique user identifier.
    pub sub: uuid::Uuid,
    pub email: Option<String>,
    pub name: Option<String>,
    pub given_name: Option<String>,
    pub preferred_username: Option<String>,
    pub nickname: Option<String>,
    /// A custom quota claim.
    pub quota: Option<byte_unit::Byte>,
}

/// The first present name among the preferred username, the nickname, the
/// name and the given name, in that order.
pub open spec fn best_username(c: JwtUserClaims) -> Option<String> {
    if c.preferred_username is Some {
        c.preferred_username
    } else if c.nickname is Some {
        c.nickname
    } else if c.name is Some {
        c.name
    } else {
        c.given_name
    }
}

impl JwtUserClaims {
    /// The best available username.
    pub fn get_username(&self) -> (r: Option<String>)
        ensures
            match (r, best_username(*self)) {
                (Some(a), Some(b)) => a@ == b@,
                (None, None) => true,
                _ => false,
            },
    {
        if let Some(u) = &self.preferred_username {
            return Some(u.clone());
        }
        if let Some(u) = &self.nickname {
            return Some(u.clone());
        }
        if let Some(u) = &self.name {
            return Some(u.clone());
        }
        match &self.given_name {
            Some(u) => Some(u.clone()),
            None => None,
        }
    }

    /// The domain user id: the subject claim.
    pub fn user_id(&self) -> (r: uuid::Uuid)
        ensures
            r == self.sub,
    {
        self.sub
    }
}

} // verus!
