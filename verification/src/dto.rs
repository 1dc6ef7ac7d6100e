use vstd::prelude::*;

verus! {

/// The registration request payload.
#[derive(Clone, Debug)]
pub struct CreateUserDto {
    pub email: String,
    pub first_name: String,
    pub last_name: String,
    pub password: String,
    pub phone_number: String,
}

/// The stored account produced by a successful registration, carrying its
/// assigned identifier in textual form.
#[derive(Clone, Debug)]
pub struct CreateUserResponse {
    pub id: String,
    pub email: String,
    pub first_name: String,
    pub last_name: String,
    pub phone_number: String,
}

pub open spec fn is_space_char(c: char) -> bool {
    c == ' ' || c == '\t' || c == '\n' || c == '\r' || c == '\u{b}' || c == '\u{c}'
}

/// A character allowed around the markers of an email address: anything
/// but whitespace and the at sign.
pub open spec fn is_email_atom(c: char) -> bool {
    !is_space_char(c) && c != '@'
}

/// An acceptable email: a non-empty local part, one at sign, and a domain
/// holding a dot with at least one character on each side; no whitespace
/// and no second at sign anywhere.
pub open spec fn spec_valid_email(s: Seq<char>) -> bool {
    exists|a: int, k: int|
        #![trigger s[a], s[k]]
        {
            &&& 1 <= a
            &&& a + 2 <= k
            &&& k + 2 <= s.len()
            &&& s[a] == '@'
            &&& s[k] == '.'
            &&& forall|i: int| 0 <= i < s.len() && i != a ==> is_email_atom(#[trigger] s[i])
        }
}

pub open spec fn is_name_char(c: char) -> bool {
    ('A' <= c && c <= 'Z') || ('a' <= c && c <= 'z') || is_space_char(c) || c == '-'
}

/// An acceptable personal name: at least two characters, all of them
/// letters, whitespace or hyphens.
pub open spec fn spec_valid_name(s: Seq<char>) -> bool {
    s.len() >= 2 && forall|i: int| 0 <= i < s.len() ==> is_name_char(#[trigger] s[i])
}

/// An acceptable phone number: an optional leading plus sign, then ten to
/// fifteen decimal digits and nothing else.
pub open spec fn spec_valid_phone(s: Seq<char>) -> bool {
    let d = crate::numbers::digits_part(s);
    10 <= d.len() <= 15 && crate::numbers::all_dec_digits(d)
}

fn is_space_exec(c: char) -> (r: bool)
    ensures
        r == is_space_char(c),
{
    c == ' ' || c == '\t' || c == '\n' || c == '\r' || c == '\u{b}' || c == '\u{c}'
}

/// Checks an email address against the acceptance rule above.
pub fn validate_email_strict(email: &str) -> (r: Result<(), String>)
    ensures
        r is Ok <==> spec_valid_email(email@),
        r matches Err(m) ==> m@ == "invalid email format"@,
{
    let ghost s = email@;
    let n = email.unicode_len();
    let mut at_seen = false;
    let mut at_pos: usize = 0;
    let mut i: usize = 0;
    while i < n
        invariant
            n == s.len(),
            s == email@,
            i <= n,
            at_seen ==> at_pos < i && s[at_pos as int] == '@',
            forall|j: int|
                0 <= j < i && !(at_seen && j == at_pos) ==> is_email_atom(#[trigger] s[j]),
        decreases n - i,
    {
        let c = email.get_char(i);
        if c == '@' {
            if at_seen {
                proof {
                    if spec_valid_email(s) {
                        let (a, k) = choose|a: int, k: int|
                            #![trigger s[a], s[k]]
                            {
                                &&& 1 <= a
                                &&& a + 2 <= k
                                &&& k + 2 <= s.len()
                                &&& s[a] == '@'
                                &&& s[k] == '.'
                                &&& forall|i: int|
                                    0 <= i < s.len() && i != a ==> is_email_atom(#[trigger] s[i])
                            };
                        if a != at_pos {
                            assert(is_email_atom(s[at_pos as int]));
                        } else {
                            assert(is_email_atom(s[i as int]));
                        }
                    }
                }
                return Err("invalid email format".to_owned());
            }
            at_seen = true;
            at_pos = i;
        } else if is_space_exec(c) {
            proof {
                if spec_valid_email(s) {
                    let (a, k) = choose|a: int, k: int|
                        #![trigger s[a], s[k]]
                        {
                            &&& 1 <= a
                            &&& a + 2 <= k
                            &&& k + 2 <= s.len()
                            &&& s[a] == '@'
                            &&& s[k] == '.'
                            &&& forall|i: int|
                                0 <= i < s.len() && i != a ==> is_email_atom(#[trigger] s[i])
                        };
                    assert(is_email_atom(s[i as int]));
                }
            }
            return Err("invalid email format".to_owned());
        }
        i = i + 1;
    }
    if !at_seen || at_pos == 0 {
        proof {
            if spec_valid_email(s) {
                let (a, k) = choose|a: int, k: int|
                    #![trigger s[a], s[k]]
                    {
                        &&& 1 <= a
                        &&& a + 2 <= k
                        &&& k + 2 <= s.len()
                        &&& s[a] == '@'
                        &&& s[k] == '.'
                        &&& forall|i: int|
                            0 <= i < s.len() && i != a ==> is_email_atom(#[trigger] s[i])
                    };
                if at_seen && a != at_pos {
                    assert(is_email_atom(s[a]));
                }
                if !at_seen {
                    assert(is_email_atom(s[a]));
                }
            }
        }
        return Err("invalid email format".to_owned());
    }
    if n < 4 || at_pos > n - 4 {
        proof {
            if spec_valid_email(s) {
                let (a, k) = choose|a: int, k: int|
                    #![trigger s[a], s[k]]
                    {
                        &&& 1 <= a
                        &&& a + 2 <= k
                        &&& k + 2 <= s.len()
                        &&& s[a] == '@'
                        &&& s[k] == '.'
                        &&& forall|i: int|
                            0 <= i < s.len() && i != a ==> is_email_atom(#[trigger] s[i])
                    };
                if a != at_pos {
                    assert(is_email_atom(s[a]));
                }
            }
        }
        return Err("invalid email format".to_owned());
    }
    let mut k: usize = at_pos + 2;
    let mut found = false;
    while !found && k <= n - 2
        invariant
            n == s.len(),
            s == email@,
            4 <= n,
            1 <= at_pos,
            at_pos + 4 <= n,
            at_pos + 2 <= k,
            k <= n - 1,
            s[at_pos as int] == '@',
            forall|j: int| 0 <= j < n && j != at_pos ==> is_email_atom(#[trigger] s[j]),
            !found ==> forall|j: int| at_pos + 2 <= j < k ==> s[j] != '.',
            found ==> s[k as int] == '.' && k + 2 <= n,
        decreases n - k, (if found { 0int } else { 1int }),
    {
        if email.get_char(k) == '.' {
            found = true;
        } else {
            k = k + 1;
        }
    }
    if found {
        proof {
            assert(s[at_pos as int] == '@' && s[k as int] == '.');
            assert(spec_valid_email(s));
        }
        Ok(())
    } else {
        proof {
            if spec_valid_email(s) {
                let (a, kk) = choose|a: int, kk: int|
                    #![trigger s[a], s[kk]]
                    {
                        &&& 1 <= a
                        &&& a + 2 <= kk
                        &&& kk + 2 <= s.len()
                        &&& s[a] == '@'
                        &&& s[kk] == '.'
                        &&& forall|i: int|
                            0 <= i < s.len() && i != a ==> is_email_atom(#[trigger] s[i])
                    };
                if a != at_pos {
                    assert(is_email_atom(s[a]));
                }
                assert(s[kk] != '.');
            }
        }
        Err("invalid email format".to_owned())
    }
}

/// Checks a personal name against the acceptance rule above.
pub fn validate_name(name: &str) -> (r: Result<(), String>)
    ensures
        r is Ok <==> spec_valid_name(name@),
        r matches Err(m) ==> m@ == "invalid name format"@,
{
    let n = name.unicode_len();
    if n < 2 {
        return Err("invalid name format".to_owned());
    }
    let mut i: usize = 0;
    while i < n
        invariant
            n == name@.len(),
            i <= n,
            forall|j: int| 0 <= j < i ==> is_name_char(#[trigger] name@[j]),
        decreases n - i,
    {
        let c = name.get_char(i);
        let ok = ('A' <= c && c <= 'Z') || ('a' <= c && c <= 'z') || is_space_exec(c) || c == '-';
        if !ok {
            return Err("invalid name format".to_owned());
        }
        i = i + 1;
    }
    Ok(())
}

/// Checks a phone number against the acceptance rule above.
pub fn validate_phone_strict(phone: &str) -> (r: Result<(), String>)
    ensures
        r is Ok <==> spec_valid_phone(phone@),
        r matches Err(m) ==> m@ == "invalid phone format"@,
{
    let ghost s = phone@;
    let n = phone.unicode_len();
    if n == 0 {
        return Err("invalid phone format".to_owned());
    }
    let first = phone.get_char(0);
    let b: usize = if first == '+' {
        1
    } else {
        0
    };
    proof {
        assert(crate::numbers::digits_part(s) =~= s.subrange(b as int, n as int));
    }
    if n - b < 10 || n - b > 15 {
        return Err("invalid phone format".to_owned());
    }
    let mut i: usize = b;
    while i < n
        invariant
            n == s.len(),
            s == phone@,
            b <= i <= n,
            crate::numbers::digits_part(s) == s.subrange(b as int, n as int),
            forall|j: int|
                b <= j < i ==> crate::numbers::is_dec_digit(#[trigger] s[j]),
        decreases n - i,
    {
        let c = phone.get_char(i);
        if !('0' <= c && c <= '9') {
            proof {
                assert(s.subrange(b as int, n as int)[i - b] == s[i as int]);
            }
            return Err("invalid phone format".to_owned());
        }
        i = i + 1;
    }
    proof {
        assert(forall|j: int|
            0 <= j < s.subrange(b as int, n as int).len() ==> crate::numbers::is_dec_digit(
                #[trigger] s.subrange(b as int, n as int)[j],
            ));
    }
    Ok(())
}

/// The per-field validation failures of a payload, in field declaration
/// order, each field carrying its failure message. The password field has
/// no format rule here and is never reported.
pub open spec fn spec_validation_failures(dto: CreateUserDto) -> Seq<(Seq<char>, Seq<Seq<char>>)> {
    (if !spec_valid_email(dto.email@) {
        seq![("email"@, seq!["invalid email format"@])]
    } else {
        Seq::<(Seq<char>, Seq<Seq<char>>)>::empty()
    }) + (if !spec_valid_name(dto.first_name@) {
        seq![("first_name"@, seq!["invalid name format"@])]
    } else {
        Seq::<(Seq<char>, Seq<Seq<char>>)>::empty()
    }) + (if !spec_valid_name(dto.last_name@) {
        seq![("last_name"@, seq!["invalid name format"@])]
    } else {
        Seq::<(Seq<char>, Seq<Seq<char>>)>::empty()
    }) + (if !spec_valid_phone(dto.phone_number@) {
        seq![("phone_number"@, seq!["invalid phone format"@])]
    } else {
        Seq::<(Seq<char>, Seq<Seq<char>>)>::empty()
    })
}

impl CreateUserDto {
    /// Validates every constrained field and reports the failures as the
    /// field-to-messages mapping the aggregation consumes.
    pub fn validate(&self) -> (r: Vec<(String, Vec<String>)>)
        ensures
            r.deep_view() == spec_validation_failures(*self),
    {
        let mut r: Vec<(String, Vec<String>)> = Vec::new();
        if let Err(m) = validate_email_strict(self.email.as_str()) {
            let mut msgs: Vec<String> = Vec::new();
            msgs.push(m);
            r.push(("email".to_owned(), msgs));
        }
        if let Err(m) = validate_name(self.first_name.as_str()) {
            let mut msgs: Vec<String> = Vec::new();
            msgs.push(m);
            r.push(("first_name".to_owned(), msgs));
        }
        if let Err(m) = validate_name(self.last_name.as_str()) {
            let mut msgs: Vec<String> = Vec::new();
            msgs.push(m);
            r.push(("last_name".to_owned(), msgs));
        }
        if let Err(m) = validate_phone_strict(self.phone_number.as_str()) {
            let mut msgs: Vec<String> = Vec::new();
            msgs.push(m);
            r.push(("phone_number".to_owned(), msgs));
        }
        proof {
            assert(r.deep_view() =~~= spec_validation_failures(*self));
        }
        r
    }
}

} // verus!
