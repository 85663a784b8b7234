//! Table locations and backend options.
//!
//! A table location is given as one string: either an absolute URL, which is
//! normalized by the URL parser, or a filesystem path, which the caller
//! canonicalizes and which is then converted to a `file:` URL.  Every table
//! operation starts from the single canonical URL that [`resolve_location`]
//! produces.  Backend options arrive as loosely-typed key/value pairs;
//! [`filter_storage_options`] keeps exactly the entries that carry a string
//! value.

use vstd::prelude::*;

use crate::errors::TableError;

verus! {

broadcast use vstd::std_specs::vec::group_vec_axioms, vstd::seq::group_seq_axioms;

/// What the URL parser returns on a string: the normalized serialization of
/// the absolute URL it denotes, or nothing when the string is not an
/// absolute URL.
pub uninterp spec fn parsed_url(s: Seq<char>) -> Option<Seq<char>>;

/// Relies on `url::Url::parse`, which parses an absolute URL from a string
/// or fails, and on `Url::as_str` for the parsed URL's serialization; the
/// result is a function of the input string alone.
#[verifier::external_body]
fn parse_url(s: &str) -> (r: Option<String>)
    ensures
        r matches Some(u) ==> parsed_url(s@) == Some(u@),
        r is None ==> parsed_url(s@) is None,
{
    match url::Url::parse(s) {
        Ok(u) => Some(u.as_str().to_owned()),
        Err(_) => None,
    }
}

/// What the file-URL conversion returns on a path string: the `file:` URL
/// serialization, or nothing when the path cannot name a file URL (it is
/// not absolute, for one).
pub uninterp spec fn file_url(path: Seq<char>) -> Option<Seq<char>>;

/// Relies on `url::Url::from_file_path`, which converts an absolute
/// filesystem path into a `file:` URL or fails, and on `Url::as_str` for the
/// serialization; on one platform the result is a function of the path
/// string alone.
#[verifier::external_body]
fn path_to_file_url(path: &str) -> (r: Option<String>)
    ensures
        r matches Some(u) ==> file_url(path@) == Some(u@),
        r is None ==> file_url(path@) is None,
{
    match url::Url::from_file_path(path) {
        Ok(u) => Some(u.as_str().to_owned()),
        Err(_) => None,
    }
}

/// Whether the location string already is an absolute URL; when it is not,
/// the caller canonicalizes it as a filesystem path before resolving.
pub fn location_is_url(s: &str) -> (r: bool)
    ensures
        r == (parsed_url(s@) is Some),
{
    parse_url(s).is_some()
}

/// The canonical URL of a table location: a string that parses as an
/// absolute URL is taken in its normalized form; anything else is treated
/// as a filesystem path — handed in here after canonicalization — and
/// converted to a `file:` URL; a path that yields none is rejected.
pub open spec fn resolved_location(original: Seq<char>, canonical: Seq<char>) -> Option<Seq<char>> {
    match parsed_url(original) {
        Some(u) => Some(u),
        None => file_url(canonical),
    }
}

/// Resolves a location string to the one canonical URL every table
/// operation starts from, exactly as [`resolved_location`] states;
/// `canonical` is the caller's canonicalization of `original` as a path
/// (the original string itself where canonicalization failed or was not
/// needed).
pub fn resolve_location(original: &str, canonical: &str) -> (r: Result<String, TableError>)
    ensures
        r matches Ok(u) ==> resolved_location(original@, canonical@) == Some(u@),
        r matches Err(e) ==> resolved_location(original@, canonical@) is None && (e matches
            TableError::InvalidLocation { given } && given@ == original@),
{
    match parse_url(original) {
        Some(u) => Ok(u),
        None => match path_to_file_url(canonical) {
            Some(u) => Ok(u),
            None => Err(TableError::InvalidLocation { given: original.to_owned() }),
        },
    }
}

/// The entries of an option list that carry a string value, in order, as
/// key/value pairs.
pub open spec fn filtered_options(opts: Seq<(String, Option<String>)>) -> Seq<
    (Seq<char>, Seq<char>),
>
    decreases opts,
{
    if opts.len() == 0 {
        Seq::empty()
    } else {
        (match opts[0].1 {
            Some(v) => seq![(opts[0].0@, v@)],
            None => Seq::empty(),
        }) + filtered_options(opts.drop_first())
    }
}

/// Keeps the options from position `i` on that carry a string value.
fn filter_options_from(opts: &Vec<(String, Option<String>)>, i: usize) -> (r: Vec<
    (String, String),
>)
    requires
        i <= opts@.len(),
    ensures
        crate::clauses::pairs_view(r@) == filtered_options(opts@.skip(i as int)),
    decreases opts@.len() - i,
{
    let ghost suffix = opts@.skip(i as int);
    if i == opts.len() {
        let out: Vec<(String, String)> = Vec::new();
        proof {
            crate::clauses::lemma_pairs_view(out@);
            assert(crate::clauses::pairs_view(out@) =~= Seq::<(Seq<char>, Seq<char>)>::empty());
        }
        out
    } else {
        proof {
            assert(suffix[0] == opts@[i as int]);
            assert(suffix.drop_first() =~= opts@.skip(i + 1));
        }
        let mut rest = filter_options_from(opts, i + 1);
        let ghost rest_prev = rest@;
        match &opts[i].1 {
            Some(v) => {
                let pair = (opts[i].0.clone(), v.clone());
                let ghost pv = (pair.0@, pair.1@);
                rest.insert(0, pair);
                proof {
                    crate::clauses::lemma_pairs_view(rest@);
                    crate::clauses::lemma_pairs_view(rest_prev);
                    assert(crate::clauses::pairs_view(rest@) =~= seq![pv]
                        + crate::clauses::pairs_view(rest_prev));
                }
                rest
            },
            None => rest,
        }
    }
}

/// Keeps exactly the options that carry a string value, in order, as
/// [`filtered_options`] states; entries whose value is missing are dropped.
pub fn filter_storage_options(opts: &Vec<(String, Option<String>)>) -> (r: Vec<(String, String)>)
    ensures
        crate::clauses::pairs_view(r@) == filtered_options(opts@),
{
    proof {
        assert(opts@.skip(0) =~= opts@);
    }
    filter_options_from(opts, 0)
}

} // verus!
