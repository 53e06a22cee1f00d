use vstd::prelude::*;

use crate::errors::ErrorCode;

verus! {

broadcast use vstd::string::axiom_spec_iter;

/// The characters of `s`, in order.
fn chars_of(s: &str) -> (v: Vec<char>)
    ensures
        v@ == s@,
{
    let mut v: Vec<char> = Vec::new();
    for c in it: s.chars()
        invariant
            v@ == it.seq().subrange(0, it.index() as int),
    {
        v.push(c);
    }
    v
}

/// Most characters a user name may hold.
pub const NAME_MAX_LEN: usize = 256;

/// Most characters a password may hold.
pub const PASSWORD_MAX_LEN: usize = 100;

/// Most characters an icon reference may hold.
pub const ICON_MAX_LEN: usize = 2048;

/// Most characters an API key may hold.
pub const OPENAI_KEY_MAX_LEN: usize = 256;

pub open spec fn is_space(c: char) -> bool {
    c == ' ' || c == '\t' || c == '\n' || c == '\r'
}

/// Characters that a name or a password may not hold.
pub open spec fn is_forbidden(c: char) -> bool {
    c == '/' || c == '(' || c == ')' || c == '"' || c == '<' || c == '>' || c == '\\' || c == '{'
        || c == '}'
}

pub open spec fn is_ascii_letter(c: char) -> bool {
    ('a' <= c && c <= 'z') || ('A' <= c && c <= 'Z')
}

pub open spec fn is_ascii_digit(c: char) -> bool {
    '0' <= c && c <= '9'
}

/// Characters that an API key is made of.
pub open spec fn is_key_char(c: char) -> bool {
    is_ascii_letter(c) || is_ascii_digit(c) || c == '-' || c == '_'
}

/// A class of characters that a rule looks for.
#[derive(Clone, Copy, Debug, PartialEq, Eq, Structural)]
pub enum CharClass {
    Space,
    NotSpace,
    Forbidden,
    Letter,
    Digit,
    NotKey,
}

impl CharClass {
    pub open spec fn spec_holds(self, c: char) -> bool {
        match self {
            CharClass::Space => is_space(c),
            CharClass::NotSpace => !is_space(c),
            CharClass::Forbidden => is_forbidden(c),
            CharClass::Letter => is_ascii_letter(c),
            CharClass::Digit => is_ascii_digit(c),
            CharClass::NotKey => !is_key_char(c),
        }
    }

    fn holds(self, c: char) -> (r: bool)
        ensures
            r == self.spec_holds(c),
    {
        match self {
            CharClass::Space => c == ' ' || c == '\t' || c == '\n' || c == '\r',
            CharClass::NotSpace => !(c == ' ' || c == '\t' || c == '\n' || c == '\r'),
            CharClass::Forbidden => c == '/' || c == '(' || c == ')' || c == '"' || c == '<' || c
                == '>' || c == '\\' || c == '{' || c == '}',
            CharClass::Letter => ('a' <= c && c <= 'z') || ('A' <= c && c <= 'Z'),
            CharClass::Digit => '0' <= c && c <= '9',
            CharClass::NotKey => !(('a' <= c && c <= 'z') || ('A' <= c && c <= 'Z') || ('0' <= c
                && c <= '9') || c == '-' || c == '_'),
        }
    }
}

/// Whether some character of `s` belongs to `class`.
pub open spec fn contains_class(s: Seq<char>, class: CharClass) -> bool {
    exists|i: int| 0 <= i < s.len() && class.spec_holds(#[trigger] s[i])
}

fn has_class(v: &Vec<char>, class: CharClass) -> (r: bool)
    ensures
        r == contains_class(v@, class),
{
    let mut i: usize = 0;
    while i < v.len()
        invariant
            i <= v.len(),
            forall|j: int| 0 <= j < i ==> !class.spec_holds(#[trigger] v@[j]),
        decreases v.len() - i,
    {
        if class.holds(v[i]) {
            assert(class.spec_holds(v@[i as int]));
            return true;
        }
        i += 1;
    }
    false
}

/// The outcome of validating a user name.
pub open spec fn name_outcome(s: Seq<char>) -> Result<Seq<char>, ErrorCode> {
    if !contains_class(s, CharClass::NotSpace) {
        Err(ErrorCode::UserNameIsEmpty)
    } else if s.len() > NAME_MAX_LEN {
        Err(ErrorCode::UserNameTooLong)
    } else if contains_class(s, CharClass::Forbidden) {
        Err(ErrorCode::UserNameContainForbiddenCharacters)
    } else {
        Ok(s)
    }
}

/// A user name that passed validation.
#[derive(Clone, Debug, PartialEq, Eq)]
pub struct UserName(String);

impl View for UserName {
    type V = Seq<char>;

    closed spec fn view(&self) -> Seq<char> {
        self.0@
    }
}

impl UserName {
    /// Accepts a name that holds some character other than white space, is at most
    /// `NAME_MAX_LEN` characters long and holds no forbidden character.
    pub fn parse(s: String) -> (r: Result<UserName, ErrorCode>)
        ensures
            match r {
                Ok(n) => name_outcome(s@) == Ok::<Seq<char>, ErrorCode>(n@),
                Err(e) => name_outcome(s@) == Err::<Seq<char>, ErrorCode>(e),
            },
    {
        let v = chars_of(s.as_str());
        if !has_class(&v, CharClass::NotSpace) {
            Err(ErrorCode::UserNameIsEmpty)
        } else if v.len() > NAME_MAX_LEN {
            Err(ErrorCode::UserNameTooLong)
        } else if has_class(&v, CharClass::Forbidden) {
            Err(ErrorCode::UserNameContainForbiddenCharacters)
        } else {
            Ok(UserName(s))
        }
    }

    pub fn as_str(&self) -> (r: &str)
        ensures
            r@ == self@,
    {
        self.0.as_str()
    }
}

/// `d` is the part of an email address after its `@`: not empty, holding a dot,
/// and neither starting nor ending with one.
pub open spec fn is_email_domain(d: Seq<char>) -> bool {
    &&& d.len() > 0
    &&& d[0] != '.'
    &&& d[d.len() - 1] != '.'
    &&& d.contains('.')
}

/// `s` has its one `@` at `k`, after a non-empty local part and before a valid domain.
pub open spec fn email_split_at(s: Seq<char>, k: int) -> bool {
    &&& 0 < k < s.len()
    &&& s[k] == '@'
    &&& forall|j: int| 0 <= j < s.len() && j != k ==> s[j] != '@'
    &&& is_email_domain(s.subrange(k + 1, s.len() as int))
}

pub open spec fn is_email(s: Seq<char>) -> bool {
    &&& !contains_class(s, CharClass::Space)
    &&& exists|k: int| email_split_at(s, k)
}

/// The outcome of validating an email address.
pub open spec fn email_outcome(s: Seq<char>) -> Result<Seq<char>, ErrorCode> {
    if is_email(s) {
        Ok(s)
    } else {
        Err(ErrorCode::EmailFormatInvalid)
    }
}

/// The outcome of validating a password.
pub open spec fn password_outcome(s: Seq<char>) -> Result<Seq<char>, ErrorCode> {
    if s.len() == 0 {
        Err(ErrorCode::PasswordIsEmpty)
    } else if s.len() > PASSWORD_MAX_LEN {
        Err(ErrorCode::PasswordTooLong)
    } else if contains_class(s, CharClass::Forbidden) {
        Err(ErrorCode::PasswordContainsForbidCharacters)
    } else if !contains_class(s, CharClass::Letter) || !contains_class(s, CharClass::Digit) {
        Err(ErrorCode::PasswordFormatInvalid)
    } else {
        Ok(s)
    }
}

/// The outcome of validating an icon reference.
pub open spec fn icon_outcome(s: Seq<char>) -> Result<Seq<char>, ErrorCode> {
    if s.len() > ICON_MAX_LEN || contains_class(s, CharClass::Space) {
        Err(ErrorCode::UserIconInvalid)
    } else {
        Ok(s)
    }
}

/// The outcome of validating an API key.
pub open spec fn openai_key_outcome(s: Seq<char>) -> Result<Seq<char>, ErrorCode> {
    if s.len() > OPENAI_KEY_MAX_LEN || contains_class(s, CharClass::NotKey) {
        Err(ErrorCode::OpenaiKeyInvalid)
    } else {
        Ok(s)
    }
}

/// Decides `is_email` on the characters of an address.
fn check_email(v: &Vec<char>) -> (r: bool)
    ensures
        r == is_email(v@),
{
    if has_class(v, CharClass::Space) {
        return false;
    }
    let n = v.len();
    // the number of `@` seen, counted up to two, and where the first one stands
    let mut ats: usize = 0;
    let mut first: usize = 0;
    let mut i: usize = 0;
    while i < n
        invariant
            n == v.len(),
            i <= n,
            ats <= 2,
            ats == 0 ==> forall|j: int| 0 <= j < i ==> v@[j] != '@',
            ats >= 1 ==> first < i && v@[first as int] == '@' && forall|j: int|
                0 <= j < first ==> v@[j] != '@',
            ats == 1 ==> forall|j: int| first < j < i ==> v@[j] != '@',
            ats == 2 ==> exists|j: int| first < j < i && v@[j] == '@',
        decreases n - i,
    {
        if v[i] == '@' {
            if ats == 0 {
                first = i;
                ats = 1;
            } else {
                assert(v@[i as int] == '@');
                ats = 2;
            }
        }
        i += 1;
    }
    if ats != 1 || first == 0 || first + 1 >= n || v[first + 1] == '.' || v[n - 1] == '.' {
        proof {
            if exists|k: int| email_split_at(v@, k) {
                let k = choose|k: int| email_split_at(v@, k);
                if ats == 0 {
                    assert(v@[k] == '@');
                } else if ats == 2 {
                    let j = choose|j: int| first < j < n && v@[j] == '@';
                    assert(j == k && first == k);
                } else {
                    assert(first == k);
                    let d = v@.subrange(k + 1, n as int);
                    assert(d[0] == v@[k + 1]);
                    assert(d[d.len() - 1] == v@[n - 1]);
                }
            }
        }
        return false;
    }
    assert(forall|m: int| 0 <= m < n && m != first ==> v@[m] != '@');
    let mut j: usize = first + 1;
    while j < n
        invariant
            n == v.len(),
            0 < first,
            first + 1 < n,
            v@[first as int] == '@',
            v@[first + 1] != '.',
            v@[n - 1] != '.',
            forall|m: int| 0 <= m < n && m != first ==> v@[m] != '@',
            !contains_class(v@, CharClass::Space),
            first + 1 <= j <= n,
            forall|m: int| first < m < j ==> v@[m] != '.',
        decreases n - j,
    {
        if v[j] == '.' {
            proof {
                let d = v@.subrange(first + 1, n as int);
                assert(d[j - first - 1] == '.');
                assert(d.contains('.'));
                assert(d[0] == v@[first + 1]);
                assert(d[d.len() - 1] == v@[n - 1]);
                assert(email_split_at(v@, first as int));
            }
            return true;
        }
        j += 1;
    }
    proof {
        if exists|k: int| email_split_at(v@, k) {
            let k = choose|k: int| email_split_at(v@, k);
            assert(first == k);
            let d = v@.subrange(k + 1, n as int);
            let m = choose|m: int| 0 <= m < d.len() && d[m] == '.';
            assert(v@[k + 1 + m] == '.');
        }
    }
    false
}

/// An email address that passed validation.
#[derive(Clone, Debug, PartialEq, Eq)]
pub struct UserEmail(String);

impl View for UserEmail {
    type V = Seq<char>;

    closed spec fn view(&self) -> Seq<char> {
        self.0@
    }
}

impl UserEmail {
    /// Accepts an address without white space that has exactly one `@`, with
    /// something before it and a domain after it (see `is_email_domain`).
    pub fn parse(s: String) -> (r: Result<UserEmail, ErrorCode>)
        ensures
            match r {
                Ok(n) => email_outcome(s@) == Ok::<Seq<char>, ErrorCode>(n@),
                Err(e) => email_outcome(s@) == Err::<Seq<char>, ErrorCode>(e),
            },
    {
        let v = chars_of(s.as_str());
        if check_email(&v) {
            Ok(UserEmail(s))
        } else {
            Err(ErrorCode::EmailFormatInvalid)
        }
    }

    pub fn as_str(&self) -> (r: &str)
        ensures
            r@ == self@,
    {
        self.0.as_str()
    }
}

/// A password that passed validation.
#[derive(Clone, Debug, PartialEq, Eq)]
pub struct UserPassword(String);

impl View for UserPassword {
    type V = Seq<char>;

    closed spec fn view(&self) -> Seq<char> {
        self.0@
    }
}

impl UserPassword {
    /// Accepts a password of one to `PASSWORD_MAX_LEN` characters, with no forbidden
    /// character, holding at least one ASCII letter and one ASCII digit.
    pub fn parse(s: String) -> (r: Result<UserPassword, ErrorCode>)
        ensures
            match r {
                Ok(n) => password_outcome(s@) == Ok::<Seq<char>, ErrorCode>(n@),
                Err(e) => password_outcome(s@) == Err::<Seq<char>, ErrorCode>(e),
            },
    {
        let v = chars_of(s.as_str());
        if v.len() == 0 {
            Err(ErrorCode::PasswordIsEmpty)
        } else if v.len() > PASSWORD_MAX_LEN {
            Err(ErrorCode::PasswordTooLong)
        } else if has_class(&v, CharClass::Forbidden) {
            Err(ErrorCode::PasswordContainsForbidCharacters)
        } else if !has_class(&v, CharClass::Letter) || !has_class(&v, CharClass::Digit) {
            Err(ErrorCode::PasswordFormatInvalid)
        } else {
            Ok(UserPassword(s))
        }
    }

    pub fn as_str(&self) -> (r: &str)
        ensures
            r@ == self@,
    {
        self.0.as_str()
    }
}

/// An icon reference that passed validation.
#[derive(Clone, Debug, PartialEq, Eq)]
pub struct UserIcon(String);

impl View for UserIcon {
    type V = Seq<char>;

    closed spec fn view(&self) -> Seq<char> {
        self.0@
    }
}

impl UserIcon {
    /// Accepts a reference of at most `ICON_MAX_LEN` characters without white space;
    /// the empty reference clears the icon.
    pub fn parse(s: String) -> (r: Result<UserIcon, ErrorCode>)
        ensures
            match r {
                Ok(n) => icon_outcome(s@) == Ok::<Seq<char>, ErrorCode>(n@),
                Err(e) => icon_outcome(s@) == Err::<Seq<char>, ErrorCode>(e),
            },
    {
        let v = chars_of(s.as_str());
        if v.len() > ICON_MAX_LEN || has_class(&v, CharClass::Space) {
            Err(ErrorCode::UserIconInvalid)
        } else {
            Ok(UserIcon(s))
        }
    }

    pub fn as_str(&self) -> (r: &str)
        ensures
            r@ == self@,
    {
        self.0.as_str()
    }
}

/// An API key that passed validation.
#[derive(Clone, Debug, PartialEq, Eq)]
pub struct UserOpenaiKey(String);

impl View for UserOpenaiKey {
    type V = Seq<char>;

    closed spec fn view(&self) -> Seq<char> {
        self.0@
    }
}

impl UserOpenaiKey {
    /// Accepts a key of at most `OPENAI_KEY_MAX_LEN` characters, each an ASCII letter,
    /// an ASCII digit, `-` or `_`; the empty key clears it.
    pub fn parse(s: String) -> (r: Result<UserOpenaiKey, ErrorCode>)
        ensures
            match r {
                Ok(n) => openai_key_outcome(s@) == Ok::<Seq<char>, ErrorCode>(n@),
                Err(e) => openai_key_outcome(s@) == Err::<Seq<char>, ErrorCode>(e),
            },
    {
        let v = chars_of(s.as_str());
        if v.len() > OPENAI_KEY_MAX_LEN || has_class(&v, CharClass::NotKey) {
            Err(ErrorCode::OpenaiKeyInvalid)
        } else {
            Ok(UserOpenaiKey(s))
        }
    }

    pub fn as_str(&self) -> (r: &str)
        ensures
            r@ == self@,
    {
        self.0.as_str()
    }
}

} // verus!
