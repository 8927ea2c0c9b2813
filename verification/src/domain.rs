//! Domain validation for new subscribers: a submission becomes a
//! `NewSubscriber` only when both the email address and the display name
//! pass the syntax rules below.

use vstd::prelude::*;

verus! {

/// Malformed client input; never a server fault.
#[derive(Debug, PartialEq, Eq, Structural)]
pub struct ValidationError;

/// Spec: how many times a byte occurs in a byte string.
pub open spec fn count_byte(s: Seq<u8>, b: u8) -> nat
    decreases s.len(),
{
    if s.len() == 0 {
        0
    } else {
        count_byte(s.drop_last(), b) + (if s.last() == b {
            1nat
        } else {
            0nat
        })
    }
}

/// Spec: bytes a display name may never contain.
pub open spec fn forbidden_name_byte(b: u8) -> bool {
    b == 47 || b == 40 || b == 41 || b == 34 || b == 60 || b == 62 || b == 92 || b == 123
        || b == 125
}

/// Spec: ASCII whitespace.
pub open spec fn whitespace_byte(b: u8) -> bool {
    b == 32 || b == 9 || b == 10 || b == 13
}

/// Spec: a valid display name is non-empty, at most 256 bytes, free of
/// forbidden bytes, and not whitespace alone.
pub open spec fn valid_name(s: Seq<u8>) -> bool {
    &&& 0 < s.len() <= 256
    &&& forall|i: int| 0 <= i < s.len() ==> !forbidden_name_byte(#[trigger] s[i])
    &&& exists|i: int| 0 <= i < s.len() && !whitespace_byte(#[trigger] s[i])
}

/// Spec: a valid email address is non-empty, at most 320 bytes, printable
/// ASCII without spaces, and has exactly one `@` with text on both sides.
pub open spec fn valid_email(s: Seq<u8>) -> bool {
    &&& 0 < s.len() <= 320
    &&& count_byte(s, 64) == 1
    &&& s[0] != 64
    &&& s.last() != 64
    &&& forall|i: int| 0 <= i < s.len() ==> 33 <= #[trigger] s[i] <= 126
}

/// A display name that passed validation.
pub struct SubscriberName {
    name: Vec<u8>,
}

impl SubscriberName {
    /// Spec: the bytes this name holds.
    pub closed spec fn view(&self) -> Seq<u8> {
        self.name@
    }

    /// Spec: a parsed name always satisfies the name rules.
    pub closed spec fn wf(&self) -> bool {
        valid_name(self.name@)
    }

    /// Accept a display name exactly when it satisfies the name rules.
    pub fn parse(name: Vec<u8>) -> (r: Result<SubscriberName, ValidationError>)
        ensures
            r is Ok <==> valid_name(name@),
            r matches Ok(n) ==> n@ == name@ && n.wf(),
    {
        if name.len() == 0 || name.len() > 256 {
            return Err(ValidationError);
        }
        let mut has_visible = false;
        let mut i: usize = 0;
        while i < name.len()
            invariant
                i <= name@.len(),
                forall|j: int| 0 <= j < i ==> !forbidden_name_byte(#[trigger] name@[j]),
                has_visible <==> exists|j: int|
                    0 <= j < i && !whitespace_byte(#[trigger] name@[j]),
            decreases name@.len() - i,
        {
            let b = name[i];
            if b == 47 || b == 40 || b == 41 || b == 34 || b == 60 || b == 62 || b == 92
                || b == 123 || b == 125 {
                proof {
                    assert(forbidden_name_byte(name@[i as int]));
                }
                return Err(ValidationError);
            }
            if !(b == 32 || b == 9 || b == 10 || b == 13) {
                has_visible = true;
            }
            i = i + 1;
        }
        if has_visible {
            Ok(SubscriberName { name })
        } else {
            Err(ValidationError)
        }
    }

    /// The validated bytes.
    pub fn as_bytes(&self) -> (r: &Vec<u8>)
        ensures
            r@ == self@,
    {
        &self.name
    }
}

/// An email address that passed validation.
pub struct SubscriberEmail {
    email: Vec<u8>,
}

impl SubscriberEmail {
    /// Spec: the bytes this address holds.
    pub closed spec fn view(&self) -> Seq<u8> {
        self.email@
    }

    /// Spec: a parsed address always satisfies the email rules.
    pub closed spec fn wf(&self) -> bool {
        valid_email(self.email@)
    }

    /// Accept an email address exactly when it satisfies the email rules.
    pub fn parse(email: Vec<u8>) -> (r: Result<SubscriberEmail, ValidationError>)
        ensures
            r is Ok <==> valid_email(email@),
            r matches Ok(e) ==> e@ == email@ && e.wf(),
    {
        if email.len() == 0 || email.len() > 320 {
            return Err(ValidationError);
        }
        let mut ats: usize = 0;
        let mut i: usize = 0;
        while i < email.len()
            invariant
                i <= email@.len(),
                ats == count_byte(email@.subrange(0, i as int), 64),
                ats <= i,
                forall|j: int| 0 <= j < i ==> 33 <= #[trigger] email@[j] <= 126,
            decreases email@.len() - i,
        {
            let b = email[i];
            if b < 33 || b > 126 {
                return Err(ValidationError);
            }
            proof {
                assert(email@.subrange(0, i + 1 as int).drop_last() =~= email@.subrange(
                    0,
                    i as int,
                ));
                assert(email@.subrange(0, i + 1 as int).last() == email@[i as int]);
            }
            if b == 64 {
                ats = ats + 1;
            }
            i = i + 1;
        }
        proof {
            assert(email@.subrange(0, email@.len() as int) =~= email@);
        }
        if ats != 1 {
            return Err(ValidationError);
        }
        if email[0] == 64 || email[email.len() - 1] == 64 {
            return Err(ValidationError);
        }
        Ok(SubscriberEmail { email })
    }

    /// The validated bytes.
    pub fn as_bytes(&self) -> (r: &Vec<u8>)
        ensures
            r@ == self@,
    {
        &self.email
    }
}

/// A submission that passed both validations.
pub struct NewSubscriber {
    pub email: SubscriberEmail,
    pub name: SubscriberName,
}

impl NewSubscriber {
    /// Spec: both parts satisfy their rules.
    pub open spec fn wf(&self) -> bool {
        self.email.wf() && self.name.wf()
    }

    /// Turn a raw submission into a domain value; rejects exactly the
    /// submissions whose email or name fails its rule.
    pub fn parse(email: Vec<u8>, name: Vec<u8>) -> (r: Result<NewSubscriber, ValidationError>)
        ensures
            r is Ok <==> valid_email(email@) && valid_name(name@),
            r matches Ok(s) ==> s.email@ == email@ && s.name@ == name@ && s.wf(),
    {
        let email = match SubscriberEmail::parse(email) {
            Ok(e) => e,
            Err(e) => {
                return Err(e);
            },
        };
        let name = match SubscriberName::parse(name) {
            Ok(n) => n,
            Err(e) => {
                return Err(e);
            },
        };
        Ok(NewSubscriber { email, name })
    }
}

} // verus!
