//! The arguments of the `account(..)` and `instruction(..)` attributes: a
//! comma-separated list of items, each a path that may be followed by
//! `= <value>`, read the way `syn`'s nested-meta parser reads them.
use vstd::prelude::*;

use crate::text::str_eq;

verus! {

/// A token inside the parentheses of an attribute, as the compiler hands it
/// over.
pub enum MetaToken {
    /// An identifier or a keyword.
    Ident(String),
    /// A punctuation character; `joint` when the next character is
    /// punctuation that belongs to the same operator.
    Punct { ch: char, joint: bool },
    /// A literal, as written in the source.
    Literal(String),
    /// A delimited group of tokens.
    Group,
}

/// A path such as `account`, `a::b` or `::a`.
pub struct MetaPath {
    pub leading_colon: bool,
    pub segments: Vec<String>,
}

/// What a path holds.
pub ghost struct SpecPath {
    pub leading_colon: bool,
    pub segments: Seq<Seq<char>>,
}

impl View for MetaPath {
    type V = SpecPath;

    open spec fn view(&self) -> SpecPath {
        SpecPath {
            leading_colon: self.leading_colon,
            segments: self.segments@.map_values(|s: String| s@),
        }
    }
}

/// Whether the path is the single identifier `name`.
pub open spec fn is_ident(p: SpecPath, name: Seq<char>) -> bool {
    !p.leading_colon && p.segments.len() == 1 && p.segments[0] == name
}

/// The part of an attribute after its path.
pub enum AttrMeta {
    /// `#[path]`
    Path,
    /// `#[path(tokens)]`, or with brackets or braces.
    List(Vec<MetaToken>),
    /// `#[path = value]`
    NameValue,
}

/// An attribute on a struct, field or variant.
pub struct AttributeInput {
    pub path: MetaPath,
    pub meta: AttrMeta,
}

/// Why the arguments of an attribute were not read to their end. What was
/// read before the fault still counts.
#[derive(Clone, Copy, Debug, PartialEq, Eq, Structural)]
pub enum MetaError {
    /// The attribute has no parenthesized arguments.
    ExpectedParentheses,
    /// An item does not start with a path, or a `::` is not followed by an
    /// identifier.
    ExpectedIdent,
    /// An item is followed by something other than a comma.
    ExpectedComma,
    /// `= ` is followed by something other than `true` or `false`.
    ExpectedBool,
    /// `= ` is followed by something other than a string literal.
    ExpectedString,
}

/// The flags that the `account(..)` attributes of a field set.
#[derive(Clone, Copy, Debug, PartialEq, Eq, Structural)]
pub struct AccountAttr {
    pub is_signer: bool,
    pub is_mut: bool,
}

/// The flags of an `account(..)` attribute together with the faults met while
/// reading it.
pub struct ParsedAccountAttr {
    pub attr: AccountAttr,
    pub errors: Vec<MetaError>,
}

/// The identifier at position `i`, if there is one.
pub open spec fn ident_at(toks: Seq<MetaToken>, i: int) -> Option<Seq<char>> {
    if 0 <= i < toks.len() {
        match toks[i] {
            MetaToken::Ident(s) => Some(s@),
            _ => None,
        }
    } else {
        None
    }
}

/// Whether the punctuation character `c` is at position `i`.
pub open spec fn punct_at(toks: Seq<MetaToken>, i: int, c: char) -> bool {
    &&& 0 <= i < toks.len()
    &&& toks[i] matches MetaToken::Punct { ch, .. } && ch == c
}

/// Whether `::` starts at position `i`.
pub open spec fn colon2_at(toks: Seq<MetaToken>, i: int) -> bool {
    &&& punct_at(toks, i, ':')
    &&& toks[i] matches MetaToken::Punct { joint, .. } && joint
    &&& punct_at(toks, i + 1, ':')
}

/// The segments `::ident` that follow a path's first one, from position `i`.
pub open spec fn path_tail(toks: Seq<MetaToken>, i: int, segs: Seq<Seq<char>>) -> Result<
    (Seq<Seq<char>>, int),
    MetaError,
>
    decreases toks.len() - i,
{
    if colon2_at(toks, i) {
        match ident_at(toks, i + 2) {
            Some(s) => path_tail(toks, i + 3, segs.push(s)),
            None => Err(MetaError::ExpectedIdent),
        }
    } else {
        Ok((segs, i))
    }
}

/// The path that starts at position `i`, and the position after it.
pub open spec fn parse_path(toks: Seq<MetaToken>, i: int) -> Result<(SpecPath, int), MetaError> {
    let lead = colon2_at(toks, i);
    let j: int = if lead {
        i + 2
    } else {
        i
    };
    match ident_at(toks, j) {
        Some(s) => match path_tail(toks, j + 1, seq![s]) {
            Ok((segs, k)) => Ok((SpecPath { leading_colon: lead, segments: segs }, k)),
            Err(e) => Err(e),
        },
        None => Err(MetaError::ExpectedIdent),
    }
}

proof fn lemma_path_tail_bounds(toks: Seq<MetaToken>, i: int, segs: Seq<Seq<char>>)
    requires
        0 <= i <= toks.len(),
    ensures
        path_tail(toks, i, segs) matches Ok((_, k)) ==> i <= k <= toks.len(),
    decreases toks.len() - i,
{
    if colon2_at(toks, i) {
        if let Some(s) = ident_at(toks, i + 2) {
            lemma_path_tail_bounds(toks, i + 3, segs.push(s));
        }
    }
}

/// A path, when there is one, ends after it starts and no later than the end
/// of the tokens.
pub proof fn lemma_parse_path_bounds(toks: Seq<MetaToken>, i: int)
    requires
        0 <= i,
    ensures
        parse_path(toks, i) matches Ok((_, k)) ==> i < k <= toks.len(),
{
    let lead = colon2_at(toks, i);
    let j: int = if lead {
        i + 2
    } else {
        i
    };
    if let Some(s) = ident_at(toks, j) {
        lemma_path_tail_bounds(toks, j + 1, seq![s]);
    }
}

/// How one item of an `account(..)` attribute changes the flags: `mut` marks
/// the account writable; `signer = <bool>` and `is_signer = <bool>` set
/// whether it signs. The result holds the position after what the item read,
/// or the fault that stopped it.
pub open spec fn account_item(toks: Seq<MetaToken>, p: SpecPath, j: int, attr: AccountAttr) -> (
    AccountAttr,
    Result<int, MetaError>,
) {
    if is_ident(p, "mut"@) {
        (AccountAttr { is_mut: true, ..attr }, Ok(j))
    } else if is_ident(p, "signer"@) || is_ident(p, "is_signer"@) {
        if punct_at(toks, j, '=') {
            match ident_at(toks, j + 1) {
                Some(t) => if t == "true"@ {
                    (AccountAttr { is_signer: true, ..attr }, Ok(j + 2))
                } else if t == "false"@ {
                    (AccountAttr { is_signer: false, ..attr }, Ok(j + 2))
                } else {
                    (attr, Err(MetaError::ExpectedBool))
                },
                None => (attr, Err(MetaError::ExpectedBool)),
            }
        } else {
            (attr, Ok(j))
        }
    } else {
        (attr, Ok(j))
    }
}

/// The flags after reading the items of an `account(..)` attribute from
/// position `i`, starting from `attr`, and the fault that stopped the reading,
/// if any. Items are separated by commas; a trailing comma is allowed.
pub open spec fn account_items(toks: Seq<MetaToken>, i: int, attr: AccountAttr) -> (
    AccountAttr,
    Option<MetaError>,
)
    decreases toks.len() - i,
{
    if i < 0 || i >= toks.len() {
        (attr, None)
    } else {
        match parse_path(toks, i) {
            Err(e) => (attr, Some(e)),
            Ok((p, j)) => {
                let (a, step) = account_item(toks, p, j, attr);
                match step {
                    Err(e) => (a, Some(e)),
                    Ok(k) => if k >= toks.len() {
                        (a, None)
                    } else if punct_at(toks, k, ',') {
                        proof {
                            lemma_parse_path_bounds(toks, i);
                        }
                        account_items(toks, k + 1, a)
                    } else {
                        (a, Some(MetaError::ExpectedComma))
                    },
                }
            },
        }
    }
}

/// The value of a string literal, as written in the source; `None` when the
/// text is not a string literal.
pub uninterp spec fn lit_str_value(text: Seq<char>) -> Option<Seq<char>>;

/// The characters of an optional string.
pub open spec fn opt_string_view(s: Option<String>) -> Option<Seq<char>> {
    match s {
        Some(v) => Some(v@),
        None => None,
    }
}

/// `syn::parse_str::<syn::LitStr>` followed by `LitStr::value`. The contract
/// claims that the result is a function of the literal's text alone, named
/// `lit_str_value`: the value of the string literal, with its escapes
/// resolved, or `None` when the text is not one string literal.
#[verifier::external_body]
fn string_literal_value(text: &str) -> (r: Option<String>)
    ensures
        opt_string_view(r) == lit_str_value(text@),
{
    match syn::parse_str::<syn::LitStr>(text) {
        Ok(lit) => Some(lit.value()),
        Err(_) => None,
    }
}

/// The string value of the literal at position `i`, if there is one.
pub open spec fn lit_str_at(toks: Seq<MetaToken>, i: int) -> Option<Seq<char>> {
    if 0 <= i < toks.len() {
        match toks[i] {
            MetaToken::Literal(text) => lit_str_value(text@),
            _ => None,
        }
    } else {
        None
    }
}

/// How one item of an `instruction(..)` attribute changes the name it gives:
/// `rename = "<name>"` sets it.
pub open spec fn rename_item(toks: Seq<MetaToken>, p: SpecPath, j: int, name: Option<Seq<char>>) -> (
    Option<Seq<char>>,
    Result<int, MetaError>,
) {
    if is_ident(p, "rename"@) && punct_at(toks, j, '=') {
        match lit_str_at(toks, j + 1) {
            Some(v) => (Some(v), Ok(j + 2)),
            None => (name, Err(MetaError::ExpectedString)),
        }
    } else {
        (name, Ok(j))
    }
}

/// The name after reading the items of an `instruction(..)` attribute from
/// position `i`, starting from `name`, and the fault that stopped the
/// reading, if any.
pub open spec fn rename_items(toks: Seq<MetaToken>, i: int, name: Option<Seq<char>>) -> (
    Option<Seq<char>>,
    Option<MetaError>,
)
    decreases toks.len() - i,
{
    if i < 0 || i >= toks.len() {
        (name, None)
    } else {
        match parse_path(toks, i) {
            Err(e) => (name, Some(e)),
            Ok((p, j)) => {
                let (n, step) = rename_item(toks, p, j, name);
                match step {
                    Err(e) => (n, Some(e)),
                    Ok(k) => if k >= toks.len() {
                        (n, None)
                    } else if punct_at(toks, k, ',') {
                        proof {
                            lemma_parse_path_bounds(toks, i);
                        }
                        rename_items(toks, k + 1, n)
                    } else {
                        (n, Some(MetaError::ExpectedComma))
                    },
                }
            },
        }
    }
}

/// The fault as a sequence of zero or one faults.
pub open spec fn fault_seq(e: Option<MetaError>) -> Seq<MetaError> {
    match e {
        Some(x) => seq![x],
        None => Seq::empty(),
    }
}

/// The flags that the `account(..)` attributes among `attrs[k..]` set,
/// starting from `attr`, and the faults met, in order. Other attributes and
/// empty argument lists are passed over.
pub open spec fn account_attrs(attrs: Seq<AttributeInput>, k: int, attr: AccountAttr) -> (
    AccountAttr,
    Seq<MetaError>,
)
    decreases attrs.len() - k,
{
    if k < 0 || k >= attrs.len() {
        (attr, Seq::empty())
    } else if !is_ident(attrs[k].path@, "account"@) {
        account_attrs(attrs, k + 1, attr)
    } else {
        match attrs[k].meta {
            AttrMeta::List(toks) => if toks@.len() == 0 {
                account_attrs(attrs, k + 1, attr)
            } else {
                let (a, e) = account_items(toks@, 0, attr);
                let (f, es) = account_attrs(attrs, k + 1, a);
                (f, fault_seq(e) + es)
            },
            _ => {
                let (f, es) = account_attrs(attrs, k + 1, attr);
                (f, seq![MetaError::ExpectedParentheses] + es)
            },
        }
    }
}

/// The name that the first `instruction(..)` attribute among `attrs[k..]`
/// that gives one gives, and the faults met, in order, up to that attribute.
pub open spec fn rename_attrs(attrs: Seq<AttributeInput>, k: int) -> (
    Option<Seq<char>>,
    Seq<MetaError>,
)
    decreases attrs.len() - k,
{
    if k < 0 || k >= attrs.len() {
        (None, Seq::empty())
    } else if !is_ident(attrs[k].path@, "instruction"@) {
        rename_attrs(attrs, k + 1)
    } else {
        match attrs[k].meta {
            AttrMeta::List(toks) => if toks@.len() == 0 {
                rename_attrs(attrs, k + 1)
            } else {
                let (n, e) = rename_items(toks@, 0, None);
                if n is Some {
                    (n, fault_seq(e))
                } else {
                    let (f, es) = rename_attrs(attrs, k + 1);
                    (f, fault_seq(e) + es)
                }
            },
            _ => {
                let (f, es) = rename_attrs(attrs, k + 1);
                (f, seq![MetaError::ExpectedParentheses] + es)
            },
        }
    }
}

fn is_punct(toks: &Vec<MetaToken>, i: usize, c: char) -> (r: bool)
    ensures
        r == punct_at(toks@, i as int, c),
{
    if i < toks.len() {
        match &toks[i] {
            MetaToken::Punct { ch, .. } => *ch == c,
            _ => false,
        }
    } else {
        false
    }
}

fn is_colon2(toks: &Vec<MetaToken>, i: usize) -> (r: bool)
    ensures
        r == colon2_at(toks@, i as int),
{
    if i < toks.len() {
        match &toks[i] {
            MetaToken::Punct { ch, joint } => *ch == ':' && *joint && is_punct(toks, i + 1, ':'),
            _ => false,
        }
    } else {
        false
    }
}

fn ident_text(toks: &Vec<MetaToken>, i: usize) -> (r: Option<String>)
    ensures
        opt_string_view(r) == ident_at(toks@, i as int),
{
    if i < toks.len() {
        match &toks[i] {
            MetaToken::Ident(s) => Some(s.clone()),
            _ => None,
        }
    } else {
        None
    }
}

fn literal_value(toks: &Vec<MetaToken>, i: usize) -> (r: Option<String>)
    ensures
        opt_string_view(r) == lit_str_at(toks@, i as int),
{
    if i < toks.len() {
        match &toks[i] {
            MetaToken::Literal(text) => string_literal_value(text.as_str()),
            _ => None,
        }
    } else {
        None
    }
}

/// Whether the path is the single identifier `name`.
pub fn path_is_ident(p: &MetaPath, name: &str) -> (r: bool)
    ensures
        r == is_ident(p@, name@),
{
    if p.leading_colon || p.segments.len() != 1 {
        false
    } else {
        str_eq(p.segments[0].as_str(), name)
    }
}

/// Reads the path that starts at position `i`.
pub fn parse_meta_path(toks: &Vec<MetaToken>, i: usize) -> (r: Result<(MetaPath, usize), MetaError>)
    ensures
        match r {
            Ok((p, k)) => parse_path(toks@, i as int) == Ok::<(SpecPath, int), MetaError>(
                (p@, k as int),
            ),
            Err(e) => parse_path(toks@, i as int) == Err::<(SpecPath, int), MetaError>(e),
        },
{
    let n: usize = toks.len();
    let lead = is_colon2(toks, i);
    let j: usize = if lead {
        i + 2
    } else {
        i
    };
    match ident_text(toks, j) {
        None => Err(MetaError::ExpectedIdent),
        Some(first) => {
            let ghost s = first@;
            let mut segments: Vec<String> = Vec::new();
            segments.push(first);
            assert(segments@.map_values(|x: String| x@) =~= seq![s]);
            let mut k: usize = j + 1;
            while is_colon2(toks, k)
                invariant
                    n == toks@.len(),
                    j < toks@.len(),
                    lead == colon2_at(toks@, i as int),
                    j == (if lead {
                        i + 2
                    } else {
                        i as int
                    }),
                    ident_at(toks@, j as int) == Some(s),
                    j + 1 <= k <= toks@.len(),
                    path_tail(toks@, k as int, segments@.map_values(|x: String| x@)) == path_tail(
                        toks@,
                        j + 1,
                        seq![s],
                    ),
                decreases toks@.len() - k,
            {
                match ident_text(toks, k + 2) {
                    None => {
                        assert(path_tail(toks@, k as int, segments@.map_values(|x: String| x@))
                            == Err::<(Seq<Seq<char>>, int), MetaError>(MetaError::ExpectedIdent));
                        assert(parse_path(toks@, i as int) == Err::<(SpecPath, int), MetaError>(
                            MetaError::ExpectedIdent));
                        return Err(MetaError::ExpectedIdent);
                    },
                    Some(t) => {
                        let ghost before = segments@.map_values(|x: String| x@);
                        let ghost tv = t@;
                        segments.push(t);
                        assert(segments@.map_values(|x: String| x@) =~= before.push(tv));
                        k = k + 3;
                    },
                }
            }
            let p = MetaPath { leading_colon: lead, segments };
            Ok((p, k))
        },
    }
}

fn account_item_exec(toks: &Vec<MetaToken>, p: &MetaPath, j: usize, attr: AccountAttr) -> (r: (
    AccountAttr,
    Result<usize, MetaError>,
))
    requires
        j <= toks@.len(),
    ensures
        r.0 == account_item(toks@, p@, j as int, attr).0,
        match r.1 {
            Ok(k) => account_item(toks@, p@, j as int, attr).1 == Ok::<int, MetaError>(k as int)
                && k <= toks@.len(),
            Err(e) => account_item(toks@, p@, j as int, attr).1 == Err::<int, MetaError>(e),
        },
{
    let n: usize = toks.len();
    if path_is_ident(p, "mut") {
        (AccountAttr { is_mut: true, ..attr }, Ok(j))
    } else if path_is_ident(p, "signer") || path_is_ident(p, "is_signer") {
        if is_punct(toks, j, '=') {
            match ident_text(toks, j + 1) {
                Some(t) => {
                    if str_eq(t.as_str(), "true") {
                        (AccountAttr { is_signer: true, ..attr }, Ok(j + 2))
                    } else if str_eq(t.as_str(), "false") {
                        (AccountAttr { is_signer: false, ..attr }, Ok(j + 2))
                    } else {
                        (attr, Err(MetaError::ExpectedBool))
                    }
                },
                None => (attr, Err(MetaError::ExpectedBool)),
            }
        } else {
            (attr, Ok(j))
        }
    } else {
        (attr, Ok(j))
    }
}

/// Reads the items of an `account(..)` attribute, starting from `attr`.
pub fn parse_account_args(toks: &Vec<MetaToken>, attr: AccountAttr) -> (r: (
    AccountAttr,
    Option<MetaError>,
))
    ensures
        r == account_items(toks@, 0, attr),
{
    let mut cur = attr;
    let mut i: usize = 0;
    loop
        invariant
            i <= toks@.len(),
            account_items(toks@, i as int, cur) == account_items(toks@, 0, attr),
        decreases toks@.len() - i,
    {
        if i >= toks.len() {
            return (cur, None);
        }
        proof {
            lemma_parse_path_bounds(toks@, i as int);
        }
        match parse_meta_path(toks, i) {
            Err(e) => {
                return (cur, Some(e));
            },
            Ok((p, j)) => {
                let (a, step) = account_item_exec(toks, &p, j, cur);
                match step {
                    Err(e) => {
                        return (a, Some(e));
                    },
                    Ok(k) => {
                        if k >= toks.len() {
                            return (a, None);
                        } else if is_punct(toks, k, ',') {
                            cur = a;
                            i = k + 1;
                        } else {
                            return (a, Some(MetaError::ExpectedComma));
                        }
                    },
                }
            },
        }
    }
}

fn rename_item_exec(toks: &Vec<MetaToken>, p: &MetaPath, j: usize, name: Option<String>) -> (r: (
    Option<String>,
    Result<usize, MetaError>,
))
    requires
        j <= toks@.len(),
    ensures
        opt_string_view(r.0) == rename_item(toks@, p@, j as int, opt_string_view(name)).0,
        match r.1 {
            Ok(k) => rename_item(toks@, p@, j as int, opt_string_view(name)).1 == Ok::<
                int,
                MetaError,
            >(k as int) && k <= toks@.len(),
            Err(e) => rename_item(toks@, p@, j as int, opt_string_view(name)).1 == Err::<
                int,
                MetaError,
            >(e),
        },
{
    let n: usize = toks.len();
    if path_is_ident(p, "rename") && is_punct(toks, j, '=') {
        match literal_value(toks, j + 1) {
            Some(v) => (Some(v), Ok(j + 2)),
            None => (name, Err(MetaError::ExpectedString)),
        }
    } else {
        (name, Ok(j))
    }
}

/// Reads the items of an `instruction(..)` attribute, starting from `name`.
pub fn parse_rename_args(toks: &Vec<MetaToken>, name: Option<String>) -> (r: (
    Option<String>,
    Option<MetaError>,
))
    ensures
        (opt_string_view(r.0), r.1) == rename_items(toks@, 0, opt_string_view(name)),
{
    let mut cur = name;
    let mut i: usize = 0;
    loop
        invariant
            i <= toks@.len(),
            rename_items(toks@, i as int, opt_string_view(cur)) == rename_items(
                toks@,
                0,
                opt_string_view(name),
            ),
        decreases toks@.len() - i,
    {
        if i >= toks.len() {
            return (cur, None);
        }
        proof {
            lemma_parse_path_bounds(toks@, i as int);
        }
        match parse_meta_path(toks, i) {
            Err(e) => {
                return (cur, Some(e));
            },
            Ok((p, j)) => {
                let (n, step) = rename_item_exec(toks, &p, j, cur);
                match step {
                    Err(e) => {
                        return (n, Some(e));
                    },
                    Ok(k) => {
                        if k >= toks.len() {
                            return (n, None);
                        } else if is_punct(toks, k, ',') {
                            cur = n;
                            i = k + 1;
                        } else {
                            return (n, Some(MetaError::ExpectedComma));
                        }
                    },
                }
            },
        }
    }
}

/// The flags that the `account(..)` attributes of a field set, read in
/// order, each item overriding what came before, and the faults met. An
/// attribute that cannot be read to its end keeps what it set before the
/// fault.
pub fn parse_account_attr(attrs: &Vec<AttributeInput>) -> (r: ParsedAccountAttr)
    ensures
        (r.attr, r.errors@) == account_attrs(
            attrs@,
            0,
            AccountAttr { is_signer: false, is_mut: false },
        ),
{
    let ghost start = AccountAttr { is_signer: false, is_mut: false };
    let mut attr = AccountAttr { is_signer: false, is_mut: false };
    let mut errors: Vec<MetaError> = Vec::new();
    let mut k: usize = 0;
    while k < attrs.len()
        invariant
            k <= attrs@.len(),
            account_attrs(attrs@, k as int, attr).0 == account_attrs(attrs@, 0, start).0,
            errors@ + account_attrs(attrs@, k as int, attr).1 == account_attrs(attrs@, 0, start).1,
        decreases attrs@.len() - k,
    {
        let a = &attrs[k];
        if path_is_ident(&a.path, "account") {
            match &a.meta {
                AttrMeta::List(toks) => {
                    if toks.len() != 0 {
                        let ghost before = errors@;
                        let (next, e) = parse_account_args(toks, attr);
                        match e {
                            Some(x) => {
                                errors.push(x);
                            },
                            None => {},
                        }
                        assert(errors@ =~= before + fault_seq(e));
                        proof {
                            let rest = account_attrs(attrs@, k + 1, next).1;
                            assert(before + (fault_seq(e) + rest) =~= (before + fault_seq(e)) + rest);
                        }
                        attr = next;
                    }
                },
                _ => {
                    let ghost before = errors@;
                    errors.push(MetaError::ExpectedParentheses);
                    proof {
                        let rest = account_attrs(attrs@, k + 1, attr).1;
                        assert(before + (seq![MetaError::ExpectedParentheses] + rest) =~= errors@
                            + rest);
                    }
                },
            }
        }
        k = k + 1;
    }
    assert(errors@ + Seq::<MetaError>::empty() =~= errors@);
    ParsedAccountAttr { attr, errors }
}

/// The name that the `instruction(rename = "..")` attributes give, if any:
/// the first attribute that gives one decides. The faults met on the way are
/// returned too.
pub fn find_rename_attr(attrs: &Vec<AttributeInput>) -> (r: (Option<String>, Vec<MetaError>))
    ensures
        (opt_string_view(r.0), r.1@) == rename_attrs(attrs@, 0),
{
    let mut errors: Vec<MetaError> = Vec::new();
    let mut k: usize = 0;
    while k < attrs.len()
        invariant
            k <= attrs@.len(),
            rename_attrs(attrs@, k as int).0 == rename_attrs(attrs@, 0).0,
            errors@ + rename_attrs(attrs@, k as int).1 == rename_attrs(attrs@, 0).1,
        decreases attrs@.len() - k,
    {
        let a = &attrs[k];
        if path_is_ident(&a.path, "instruction") {
            match &a.meta {
                AttrMeta::List(toks) => {
                    if toks.len() != 0 {
                        let ghost before = errors@;
                        let (found, e) = parse_rename_args(toks, None);
                        match e {
                            Some(x) => {
                                errors.push(x);
                            },
                            None => {},
                        }
                        assert(errors@ =~= before + fault_seq(e));
                        if found.is_some() {
                            return (found, errors);
                        }
                        proof {
                            let rest = rename_attrs(attrs@, k + 1).1;
                            assert(before + (fault_seq(e) + rest) =~= (before + fault_seq(e)) + rest);
                        }
                    }
                },
                _ => {
                    let ghost before = errors@;
                    errors.push(MetaError::ExpectedParentheses);
                    proof {
                        let rest = rename_attrs(attrs@, k + 1).1;
                        assert(before + (seq![MetaError::ExpectedParentheses] + rest) =~= errors@
                            + rest);
                    }
                },
            }
        }
        k = k + 1;
    }
    assert(errors@ + Seq::<MetaError>::empty() =~= errors@);
    (None, errors)
}

/// Whether the identifier `name` occurs among the tokens.
pub open spec fn has_ident(toks: Seq<MetaToken>, name: Seq<char>) -> bool {
    exists|t: int| ident_at(toks, t) == Some(name)
}

/// Whether the identifier `name` occurs in the arguments of one of the
/// `account(..)` attributes.
pub open spec fn account_attrs_have_ident(attrs: Seq<AttributeInput>, name: Seq<char>) -> bool {
    exists|k: int|
        0 <= k < attrs.len() && is_ident((#[trigger] attrs[k]).path@, "account"@) && (
        attrs[k].meta matches AttrMeta::List(toks) && has_ident(toks@, name))
}

/// The text of a boolean literal.
pub open spec fn bool_text(b: bool) -> Seq<char> {
    if b {
        "true"@
    } else {
        "false"@
    }
}

proof fn lemma_path_tail_keeps(toks: Seq<MetaToken>, i: int, segs: Seq<Seq<char>>)
    ensures
        path_tail(toks, i, segs) matches Ok((s2, _)) ==> segs.len() <= s2.len() && forall|x: int|
            0 <= x < segs.len() ==> s2[x] == segs[x],
    decreases toks.len() - i,
{
    if colon2_at(toks, i) {
        if let Some(s) = ident_at(toks, i + 2) {
            lemma_path_tail_keeps(toks, i + 3, segs.push(s));
            assert forall|x: int| 0 <= x < segs.len() implies segs.push(s)[x] == segs[x] by {}
        }
    }
}

proof fn lemma_parse_path_first(toks: Seq<MetaToken>, i: int)
    ensures
        parse_path(toks, i) matches Ok((p, _)) ==> p.segments.len() >= 1 && ident_at(
            toks,
            if colon2_at(toks, i) {
                i + 2
            } else {
                i
            },
        ) == Some(p.segments[0]),
{
    let j: int = if colon2_at(toks, i) {
        i + 2
    } else {
        i
    };
    if let Some(s) = ident_at(toks, j) {
        lemma_path_tail_keeps(toks, j + 1, seq![s]);
    }
}

/// A single identifier not followed by `:` is a path of one segment.
proof fn lemma_single_segment(toks: Seq<MetaToken>, i: int, s: Seq<char>)
    requires
        ident_at(toks, i) == Some(s),
        !punct_at(toks, i + 1, ':'),
    ensures
        parse_path(toks, i) == Ok::<(SpecPath, int), MetaError>(
            (SpecPath { leading_colon: false, segments: seq![s] }, i + 1),
        ),
{
    assert(!colon2_at(toks, i));
    assert(!colon2_at(toks, i + 1));
}

/// Reading the item `mut` marks the account writable and leaves whether it
/// signs as it was; nothing after the path is read.
pub proof fn law_mut_item(toks: Seq<MetaToken>, p: SpecPath, j: int, attr: AccountAttr)
    requires
        is_ident(p, "mut"@),
    ensures
        account_item(toks, p, j, attr) == ((AccountAttr { is_signer: attr.is_signer, is_mut: true }), Ok::<int, MetaError>(j)),
{
}

/// Reading the item `signer = <b>` (or `is_signer = <b>`) makes the account a
/// signer exactly when `b` is `true`, and leaves whether it is writable as it
/// was.
pub proof fn law_signer_item(toks: Seq<MetaToken>, p: SpecPath, j: int, attr: AccountAttr, b: bool)
    requires
        is_ident(p, "signer"@) || is_ident(p, "is_signer"@),
        punct_at(toks, j, '='),
        ident_at(toks, j + 1) == Some(bool_text(b)),
    ensures
        account_item(toks, p, j, attr) == ((AccountAttr { is_signer: b, is_mut: attr.is_mut }), Ok::<int, MetaError>(j + 2)),
{
    reveal_strlit("mut");
    reveal_strlit("signer");
    reveal_strlit("is_signer");
    reveal_strlit("true");
    reveal_strlit("false");
    assert("mut"@.len() == 3);
    assert("signer"@.len() == 6);
    assert("is_signer"@.len() == 9);
    assert("true"@.len() == 4);
    assert("false"@.len() == 5);
    assert(!is_ident(p, "mut"@));
}

/// The items of an `account(..)` attribute do not depend on their order:
/// `signer = <b>, mut` and `mut, signer = <b>` both give a writable account
/// that signs exactly when `b` is `true`, whatever the flags were before.
pub proof fn law_account_items_any_order(
    first: Seq<MetaToken>,
    second: Seq<MetaToken>,
    key: Seq<char>,
    b: bool,
    attr: AccountAttr,
)
    requires
        key == "signer"@ || key == "is_signer"@,
        first.len() == 5,
        ident_at(first, 0) == Some(key),
        punct_at(first, 1, '='),
        ident_at(first, 2) == Some(bool_text(b)),
        punct_at(first, 3, ','),
        ident_at(first, 4) == Some("mut"@),
        second.len() == 5,
        ident_at(second, 0) == Some("mut"@),
        punct_at(second, 1, ','),
        ident_at(second, 2) == Some(key),
        punct_at(second, 3, '='),
        ident_at(second, 4) == Some(bool_text(b)),
    ensures
        account_items(first, 0, attr) == ((AccountAttr { is_signer: b, is_mut: true }), None::<MetaError>),
        account_items(second, 0, attr) == account_items(first, 0, attr),
{
    reveal_strlit("mut");
    reveal_strlit("signer");
    reveal_strlit("is_signer");
    reveal_strlit("true");
    reveal_strlit("false");
    let p_key = SpecPath { leading_colon: false, segments: seq![key] };
    let p_mut = SpecPath { leading_colon: false, segments: seq!["mut"@] };
    let signed = AccountAttr { is_signer: b, is_mut: attr.is_mut };
    let both = AccountAttr { is_signer: b, is_mut: true };
    lemma_single_segment(first, 0, key);
    lemma_single_segment(first, 4, "mut"@);
    law_signer_item(first, p_key, 1, attr, b);
    law_mut_item(first, p_mut, 5, signed);
    assert(account_items(first, 4, signed) == ((both), None::<MetaError>));
    let marked = AccountAttr { is_signer: attr.is_signer, is_mut: true };
    lemma_single_segment(second, 0, "mut"@);
    lemma_single_segment(second, 2, key);
    law_mut_item(second, p_mut, 1, attr);
    law_signer_item(second, p_key, 3, marked, b);
    assert(account_items(second, 2, marked) == ((both), None::<MetaError>));
}

/// Only a `mut` item marks an account writable, and nothing unmarks it; only
/// a `signer` or `is_signer` item changes whether it signs.
pub proof fn law_account_items_flags(toks: Seq<MetaToken>, i: int, attr: AccountAttr)
    ensures
        !has_ident(toks, "mut"@) ==> account_items(toks, i, attr).0.is_mut == attr.is_mut,
        attr.is_mut ==> account_items(toks, i, attr).0.is_mut,
        !has_ident(toks, "signer"@) && !has_ident(toks, "is_signer"@) ==> account_items(
            toks,
            i,
            attr,
        ).0.is_signer == attr.is_signer,
    decreases toks.len() - i,
{
    if 0 <= i < toks.len() {
        lemma_parse_path_first(toks, i);
        lemma_parse_path_bounds(toks, i);
        if let Ok((p, j)) = parse_path(toks, i) {
            let j0: int = if colon2_at(toks, i) {
                i + 2
            } else {
                i
            };
            let (a, step) = account_item(toks, p, j, attr);
            if is_ident(p, "mut"@) {
                assert(ident_at(toks, j0) == Some("mut"@));
            }
            if is_ident(p, "signer"@) {
                assert(ident_at(toks, j0) == Some("signer"@));
            }
            if is_ident(p, "is_signer"@) {
                assert(ident_at(toks, j0) == Some("is_signer"@));
            }
            if let Ok(k) = step {
                if k < toks.len() && punct_at(toks, k, ',') {
                    law_account_items_flags(toks, k + 1, a);
                }
            }
        }
    }
}

/// Over all the `account(..)` attributes of a field: only a `mut` item marks
/// the account writable, and nothing unmarks it; only a `signer` or
/// `is_signer` item changes whether it signs.
pub proof fn law_account_attrs_flags(attrs: Seq<AttributeInput>, k: int, attr: AccountAttr)
    ensures
        !account_attrs_have_ident(attrs, "mut"@) ==> account_attrs(attrs, k, attr).0.is_mut
            == attr.is_mut,
        attr.is_mut ==> account_attrs(attrs, k, attr).0.is_mut,
        !account_attrs_have_ident(attrs, "signer"@) && !account_attrs_have_ident(
            attrs,
            "is_signer"@,
        ) ==> account_attrs(attrs, k, attr).0.is_signer == attr.is_signer,
    decreases attrs.len() - k,
{
    if 0 <= k < attrs.len() {
        if !is_ident(attrs[k].path@, "account"@) {
            law_account_attrs_flags(attrs, k + 1, attr);
        } else {
            match attrs[k].meta {
                AttrMeta::List(toks) => {
                    if toks@.len() == 0 {
                        law_account_attrs_flags(attrs, k + 1, attr);
                    } else {
                        law_account_items_flags(toks@, 0, attr);
                        let a = account_items(toks@, 0, attr).0;
                        law_account_attrs_flags(attrs, k + 1, a);
                        if has_ident(toks@, "mut"@) {
                            assert(account_attrs_have_ident(attrs, "mut"@));
                        }
                        if has_ident(toks@, "signer"@) {
                            assert(account_attrs_have_ident(attrs, "signer"@));
                        }
                        if has_ident(toks@, "is_signer"@) {
                            assert(account_attrs_have_ident(attrs, "is_signer"@));
                        }
                    }
                },
                _ => {
                    law_account_attrs_flags(attrs, k + 1, attr);
                },
            }
        }
    }
}

} // verus!
