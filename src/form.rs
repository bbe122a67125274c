//! The subscription form: decoding a form-encoded body into its name/value
//! pairs, and binding the `email` and `name` fields from those pairs.
use vstd::prelude::*;
use crate::text::str_eq;

verus! {

/// A subscription form submission.
pub struct FormaData {
    email: String,
    name: String,
}

impl View for FormaData {
    type V = (Seq<char>, Seq<char>);

    /// The email and the name, in this order.
    closed spec fn view(&self) -> (Seq<char>, Seq<char>) {
        (self.email@, self.name@)
    }
}

impl FormaData {
    pub fn new(email: String, name: String) -> (r: FormaData)
        ensures
            r@ == (email@, name@),
    {
        FormaData { email, name }
    }

    pub fn email(&self) -> (r: &String)
        ensures
            r@ == self@.0,
    {
        &self.email
    }

    pub fn name(&self) -> (r: &String)
        ensures
            r@ == self@.1,
    {
        &self.name
    }
}

/// One of the two fields of the form.
#[derive(Clone, Copy, Debug, PartialEq, Eq, Structural)]
pub enum FormField {
    Email,
    Name,
}

impl FormField {
    /// The key under which the field is sent.
    pub open spec fn key(self) -> Seq<char> {
        match self {
            FormField::Email => "email"@,
            FormField::Name => "name"@,
        }
    }
}

/// The error type of serde_urlencoded's decoder, carried through unread.
#[verifier::external_type_specification]
#[verifier::external_body]
pub struct ExDeError(serde_urlencoded::de::Error);

/// Why a form body was not accepted.
#[derive(Debug)]
pub enum FormError {
    /// The field was not sent.
    MissingField(FormField),
    /// The field was sent more than once.
    DuplicateField(FormField),
    /// The body could not be decoded into name/value pairs.
    Malformed(serde_urlencoded::de::Error),
}

/// The decoded name/value pairs of a form body, in the order they were sent,
/// or `None` when the body cannot be decoded.
pub uninterp spec fn form_pairs_of(body: Seq<u8>) -> Option<Seq<(Seq<char>, Seq<char>)>>;

pub open spec fn pairs_view(v: Seq<(String, String)>) -> Seq<(Seq<char>, Seq<char>)> {
    v.map_values(|p: (String, String)| (p.0@, p.1@))
}

/// Relies on serde_urlencoded::from_bytes: the result is a function of the body
/// alone, the pairs in the order in which they stand in the body.
#[verifier::external_body]
fn decode_pairs(body: &[u8]) -> (r: Result<Vec<(String, String)>, serde_urlencoded::de::Error>)
    ensures
        match r {
            Ok(v) => form_pairs_of(body@) == Some(pairs_view(v@)),
            Err(_) => form_pairs_of(body@) is None,
        },
{
    serde_urlencoded::from_bytes::<Vec<(String, String)>>(body)
}

/// The state after binding a prefix of the pairs: the email and name seen so
/// far, or the field that was met a second time.
pub open spec fn bind_prefix(pairs: Seq<(Seq<char>, Seq<char>)>) -> Result<
    (Option<Seq<char>>, Option<Seq<char>>),
    FormField,
>
    decreases pairs.len(),
{
    if pairs.len() == 0 {
        Ok((None, None))
    } else {
        match bind_prefix(pairs.drop_last()) {
            Err(f) => Err(f),
            Ok((e, n)) => {
                let (k, v) = pairs.last();
                if k == FormField::Email.key() {
                    if e is Some {
                        Err(FormField::Email)
                    } else {
                        Ok((Some(v), n))
                    }
                } else if k == FormField::Name.key() {
                    if n is Some {
                        Err(FormField::Name)
                    } else {
                        Ok((e, Some(v)))
                    }
                } else {
                    Ok((e, n))
                }
            },
        }
    }
}

/// Binding of the whole form: the first repeated field is an error; otherwise
/// the email is checked for presence before the name; other keys are ignored.
pub open spec fn bind_form(pairs: Seq<(Seq<char>, Seq<char>)>) -> Result<
    (Seq<char>, Seq<char>),
    FormError,
> {
    match bind_prefix(pairs) {
        Err(f) => Err(FormError::DuplicateField(f)),
        Ok((None, _)) => Err(FormError::MissingField(FormField::Email)),
        Ok((Some(_), None)) => Err(FormError::MissingField(FormField::Name)),
        Ok((Some(e), Some(n))) => Ok((e, n)),
    }
}

/// `k` is the key of the pair at `i` and of no other pair.
pub open spec fn key_only_at(pairs: Seq<(Seq<char>, Seq<char>)>, k: Seq<char>, i: int) -> bool {
    &&& 0 <= i < pairs.len()
    &&& pairs[i].0 == k
    &&& forall|j: int| 0 <= j < pairs.len() && j != i ==> pairs[j].0 != k
}

proof fn lemma_bind_prefix_unique(
    pairs: Seq<(Seq<char>, Seq<char>)>,
    ie: int,
    ind: int,
    m: int,
)
    requires
        key_only_at(pairs, FormField::Email.key(), ie),
        key_only_at(pairs, FormField::Name.key(), ind),
        0 <= m <= pairs.len(),
    ensures
        bind_prefix(pairs.take(m)) == Ok::<_, FormField>(
            (
                if ie < m { Some(pairs[ie].1) } else { None },
                if ind < m { Some(pairs[ind].1) } else { None },
            ),
        ),
    decreases m,
{
    reveal_strlit("email");
    reveal_strlit("name");
    assert(FormField::Email.key() != FormField::Name.key()) by {
        assert(FormField::Email.key().len() != FormField::Name.key().len());
    }
    if m > 0 {
        lemma_bind_prefix_unique(pairs, ie, ind, m - 1);
        assert(pairs.take(m).drop_last() =~= pairs.take(m - 1));
        assert(pairs.take(m).last() == pairs[m - 1]);
    } else {
        assert(pairs.take(m) =~= Seq::<(Seq<char>, Seq<char>)>::empty());
    }
}

/// A form in which `email` and `name` each stand exactly once binds to their
/// values, whatever the values are and whatever other keys are sent.
pub proof fn lemma_unique_fields_bind(pairs: Seq<(Seq<char>, Seq<char>)>, ie: int, ind: int)
    requires
        key_only_at(pairs, FormField::Email.key(), ie),
        key_only_at(pairs, FormField::Name.key(), ind),
    ensures
        bind_form(pairs) == Ok::<_, FormError>((pairs[ie].1, pairs[ind].1)),
{
    lemma_bind_prefix_unique(pairs, ie, ind, pairs.len() as int);
    assert(pairs.take(pairs.len() as int) =~= pairs);
}

proof fn lemma_bind_prefix_err(pairs: Seq<(Seq<char>, Seq<char>)>, m: int, f: FormField)
    requires
        0 <= m <= pairs.len(),
        bind_prefix(pairs.take(m)) == Err::<(Option<Seq<char>>, Option<Seq<char>>), _>(f),
    ensures
        bind_prefix(pairs) == Err::<(Option<Seq<char>>, Option<Seq<char>>), _>(f),
    decreases pairs.len() - m,
{
    if m < pairs.len() {
        assert(pairs.take(m + 1).drop_last() =~= pairs.take(m));
        lemma_bind_prefix_err(pairs, m + 1, f);
    } else {
        assert(pairs.take(m) =~= pairs);
    }
}

pub open spec fn opt_view(o: Option<String>) -> Option<Seq<char>> {
    match o {
        Some(s) => Some(s@),
        None => None,
    }
}

/// `r` is the outcome that `bind_form` gives for the pairs.
pub open spec fn binds_as(r: Result<FormaData, FormError>, pairs: Seq<(Seq<char>, Seq<char>)>) -> bool {
    match (r, bind_form(pairs)) {
        (Ok(f), Ok(v)) => f@ == v,
        (Err(e), Err(e2)) => e == e2,
        _ => false,
    }
}

/// Binds the `email` and `name` fields from decoded name/value pairs.
pub fn form_from_pairs(pairs: &Vec<(String, String)>) -> (r: Result<FormaData, FormError>)
    ensures
        binds_as(r, pairs_view(pairs@)),
{
    let ghost ps = pairs_view(pairs@);
    let mut email: Option<String> = None;
    let mut name: Option<String> = None;
    let mut i: usize = 0;
    while i < pairs.len()
        invariant
            i <= pairs.len(),
            ps == pairs_view(pairs@),
            bind_prefix(ps.take(i as int)) == Ok::<_, FormField>((opt_view(email), opt_view(name))),
        decreases pairs.len() - i,
    {
        let key = &pairs[i].0;
        let value = &pairs[i].1;
        proof {
            assert(ps.take(i + 1).drop_last() =~= ps.take(i as int));
            assert(ps.take(i + 1).last() == ps[i as int]);
        }
        if str_eq(key.as_str(), "email") {
            if email.is_some() {
                proof {
                    lemma_bind_prefix_err(ps, i + 1, FormField::Email);
                }
                return Err(FormError::DuplicateField(FormField::Email));
            }
            email = Some(value.clone());
        } else if str_eq(key.as_str(), "name") {
            if name.is_some() {
                proof {
                    lemma_bind_prefix_err(ps, i + 1, FormField::Name);
                }
                return Err(FormError::DuplicateField(FormField::Name));
            }
            name = Some(value.clone());
        }
        i = i + 1;
    }
    proof {
        assert(ps.take(i as int) =~= ps);
    }
    match (email, name) {
        (None, _) => Err(FormError::MissingField(FormField::Email)),
        (Some(_), None) => Err(FormError::MissingField(FormField::Name)),
        (Some(e), Some(n)) => Ok(FormaData::new(e, n)),
    }
}

/// Decodes a form-encoded body and binds its fields.
pub fn decode_form(body: &[u8]) -> (r: Result<FormaData, FormError>)
    ensures
        match form_pairs_of(body@) {
            Some(pairs) => binds_as(r, pairs),
            None => r matches Err(FormError::Malformed(_)),
        },
{
    match decode_pairs(body) {
        Ok(pairs) => form_from_pairs(&pairs),
        Err(e) => Err(FormError::Malformed(e)),
    }
}

} // verus!
