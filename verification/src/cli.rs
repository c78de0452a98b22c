//! The command line's data: the arguments of a run, and the override
//! tokens `key=value`, `%key=value` and `@key=value`.

use vstd::prelude::*;
use crate::text::{chars_of, find_char, first_index, string_of, trim_bounds, trimmed};
use crate::entries::{pairs_view, Entries};
use crate::ExtraArgs;

verus! {

/// The arguments of the program.
#[derive(Debug, Clone)]
pub struct Args {
    pub action: Action,
}

/// What the program is asked to do.
#[derive(Debug, Clone)]
#[non_exhaustive]
pub enum Action {
    /// Diff two responses based on a profile.
    Run(RunArgs),
    /// Build a profile from what the operator types.
    Parse,
}

/// The arguments of a run.
#[derive(Debug, Clone)]
pub struct RunArgs {
    /// Profile name.
    pub profile: String,
    /// Overrides: `key=value` for the query, `%key=value` for a header,
    /// `@key=value` for a field of the body.
    pub extra_params: Vec<KeyVal>,
    /// Path of the configuration file.
    pub config: Option<String>,
}

/// What an override is aimed at.
#[derive(Clone, Copy, Debug, PartialEq, Eq, Structural)]
pub enum KeyValType {
    Query,
    Header,
    Body,
}

/// One override: a key, its value and what it is aimed at.
#[derive(Clone, Debug, PartialEq, Eq)]
pub struct KeyVal {
    pub key: String,
    pub value: String,
    pub key_type: KeyValType,
}

/// The mathematical value of a [`KeyVal`].
pub struct KeyValModel {
    pub key: Seq<char>,
    pub value: Seq<char>,
    pub key_type: KeyValType,
}

impl View for KeyVal {
    type V = KeyValModel;

    open spec fn view(&self) -> KeyValModel {
        KeyValModel { key: self.key@, value: self.value@, key_type: self.key_type }
    }
}

/// Why a token is no override.
#[derive(Clone, Copy, Debug, PartialEq, Eq, Structural)]
pub enum KeyValError {
    /// The token holds no `=`.
    MissingValue,
    /// The key starts neither with `%`, `@` nor an ASCII letter.
    InvalidKeyType,
    /// Nothing follows the `%` or the `@`.
    EmptyKey,
}

impl KeyValError {
    /// The error in words.
    pub open spec fn text(&self) -> Seq<char> {
        match self {
            KeyValError::MissingValue => "Invalid value: the token holds no '='"@,
            KeyValError::InvalidKeyType => "Invalid key value type"@,
            KeyValError::EmptyKey => "Invalid key: it is empty"@,
        }
    }

    /// The error in words.
    pub fn message(&self) -> (r: &'static str)
        ensures
            r@ == self.text(),
    {
        match self {
            KeyValError::MissingValue => "Invalid value: the token holds no '='",
            KeyValError::InvalidKeyType => "Invalid key value type",
            KeyValError::EmptyKey => "Invalid key: it is empty",
        }
    }
}

/// Whether `c` is one of the 52 ASCII letters.
pub open spec fn is_ascii_letter(c: char) -> bool {
    ('a' <= c <= 'z') || ('A' <= c <= 'Z')
}

/// The override that a trimmed key and a trimmed value stand for.
pub open spec fn classified(key: Seq<char>, value: Seq<char>) -> Result<KeyValModel, KeyValError> {
    if key.len() == 0 {
        Err(KeyValError::InvalidKeyType)
    } else if key[0] == '%' || key[0] == '@' {
        if key.len() == 1 {
            Err(KeyValError::EmptyKey)
        } else {
            Ok(
                KeyValModel {
                    key: key.skip(1),
                    value,
                    key_type: if key[0] == '%' {
                        KeyValType::Header
                    } else {
                        KeyValType::Body
                    },
                },
            )
        }
    } else if is_ascii_letter(key[0]) {
        Ok(KeyValModel { key, value, key_type: KeyValType::Query })
    } else {
        Err(KeyValError::InvalidKeyType)
    }
}

/// The override that the token `s` stands for: the token is cut at its
/// first `=`, both halves are trimmed, and the first character of the key
/// decides what the override is aimed at.
pub open spec fn key_val_of(s: Seq<char>) -> Result<KeyValModel, KeyValError> {
    match first_index(s, '=') {
        None => Err(KeyValError::MissingValue),
        Some(i) => classified(trimmed(s.take(i)), trimmed(s.skip(i + 1))),
    }
}

/// The override that a trimmed key and a trimmed value stand for.
pub fn classify(key: &str, value: &str) -> (r: Result<KeyVal, KeyValError>)
    ensures
        match r {
            Ok(kv) => classified(key@, value@) == Ok::<KeyValModel, KeyValError>(kv@),
            Err(e) => classified(key@, value@) == Err::<KeyValModel, KeyValError>(e),
        },
{
    let k = chars_of(key);
    if k.len() == 0 {
        return Err(KeyValError::InvalidKeyType);
    }
    let first = k[0];
    if first == '%' || first == '@' {
        if k.len() == 1 {
            return Err(KeyValError::EmptyKey);
        }
        assert(k@.subrange(1, k.len() as int) == key@.skip(1));
        let key_type = if first == '%' {
            KeyValType::Header
        } else {
            KeyValType::Body
        };
        Ok(KeyVal { key: string_of(&k, 1, k.len()), value: value.to_string(), key_type })
    } else if ('a' <= first && first <= 'z') || ('A' <= first && first <= 'Z') {
        Ok(KeyVal { key: key.to_string(), value: value.to_string(), key_type: KeyValType::Query })
    } else {
        Err(KeyValError::InvalidKeyType)
    }
}

/// Reads one override token.
pub fn parse_key_val(s: &str) -> (r: Result<KeyVal, KeyValError>)
    ensures
        match r {
            Ok(kv) => key_val_of(s@) == Ok::<KeyValModel, KeyValError>(kv@),
            Err(e) => key_val_of(s@) == Err::<KeyValModel, KeyValError>(e),
        },
{
    let v = chars_of(s);
    let n = v.len();
    let eq = match find_char(&v, '=') {
        None => {
            return Err(KeyValError::MissingValue);
        },
        Some(i) => i,
    };
    let (k0, k1) = trim_bounds(&v, 0, eq);
    let (v0, v1) = trim_bounds(&v, eq + 1, n);
    proof {
        assert(v@.subrange(0, eq as int) == s@.take(eq as int));
        assert(v@.subrange(eq as int + 1, n as int) == s@.skip(eq as int + 1));
    }
    let key = string_of(&v, k0, k1);
    let value = string_of(&v, v0, v1);
    classify(key.as_str(), value.as_str())
}

/// The overrides of `args` that are aimed at `kind`, in their order, each
/// as its key and its value.
pub open spec fn selected(args: Seq<KeyValModel>, kind: KeyValType) -> Entries
    decreases args.len(),
{
    if args.len() == 0 {
        Seq::empty()
    } else if args.last().key_type == kind {
        selected(args.drop_last(), kind).push((args.last().key, args.last().value))
    } else {
        selected(args.drop_last(), kind)
    }
}

/// The mathematical values of a list of overrides.
pub open spec fn key_vals_view(args: Seq<KeyVal>) -> Seq<KeyValModel> {
    Seq::new(args.len(), |i: int| args[i]@)
}

impl From<Vec<KeyVal>> for ExtraArgs {
    /// Sorts the overrides by what they are aimed at, each class in the
    /// order in which its overrides were given.
    fn from(args: Vec<KeyVal>) -> (r: ExtraArgs)
        ensures
            r@.headers == selected(key_vals_view(args@), KeyValType::Header),
            r@.querys == selected(key_vals_view(args@), KeyValType::Query),
            r@.bodys == selected(key_vals_view(args@), KeyValType::Body),
    {
        let mut headers: Vec<(String, String)> = Vec::new();
        let mut querys: Vec<(String, String)> = Vec::new();
        let mut bodys: Vec<(String, String)> = Vec::new();
        let ghost all = key_vals_view(args@);
        let mut i: usize = 0;
        while i < args.len()
            invariant
                i <= args.len(),
                all == key_vals_view(args@),
                pairs_view(headers@) == selected(all.take(i as int), KeyValType::Header),
                pairs_view(querys@) == selected(all.take(i as int), KeyValType::Query),
                pairs_view(bodys@) == selected(all.take(i as int), KeyValType::Body),
            decreases args.len() - i,
        {
            let arg = &args[i];
            let pair = (arg.key.clone(), arg.value.clone());
            proof {
                assert(all.take(i as int + 1).drop_last() == all.take(i as int));
                assert(all.take(i as int + 1).last() == args@[i as int]@);
            }
            let ghost h0 = pairs_view(headers@);
            let ghost q0 = pairs_view(querys@);
            let ghost b0 = pairs_view(bodys@);
            match arg.key_type {
                KeyValType::Query => {
                    querys.push(pair);
                    assert(pairs_view(querys@) == q0.push((arg.key@, arg.value@)));
                },
                KeyValType::Header => {
                    headers.push(pair);
                    assert(pairs_view(headers@) == h0.push((arg.key@, arg.value@)));
                },
                KeyValType::Body => {
                    bodys.push(pair);
                    assert(pairs_view(bodys@) == b0.push((arg.key@, arg.value@)));
                },
            }
            i += 1;
        }
        assert(all.take(args.len() as int) == all);
        ExtraArgs { headers, querys, bodys }
    }
}

/// What `from` returns is told by its own contract, over the views of the
/// three lists: no spec function builds the lists themselves.
impl vstd::std_specs::convert::FromSpecImpl<Vec<KeyVal>> for ExtraArgs {
    open spec fn obeys_from_spec() -> bool {
        false
    }

    open spec fn from_spec(args: Vec<KeyVal>) -> ExtraArgs {
        arbitrary()
    }
}

} // verus!
