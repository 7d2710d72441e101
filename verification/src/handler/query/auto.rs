//! The `auto` parameter: features that the service may apply on its own.

use vstd::prelude::*;
use vstd::string::StringExecFns;

use crate::handler::query::error::Error;
use crate::handler::query::text::chars_of;
use crate::handler::query::text::equals;
use crate::handler::query::text::split;
use crate::handler::query::text::split_at;
use crate::handler::query::text::string_of;
use crate::handler::query::text::texts;
use crate::handler::query::text::trim;
use crate::handler::query::text::trimmed;
use crate::handler::query::vec::CommaSeparatedVec;

verus! {

/// A feature that a request may leave to the service.
#[derive(Debug, PartialEq, Eq, Clone, Copy, Structural)]
pub enum AutoFeature {
    /// Choose the compression.
    Compress,
    /// Choose the output format.
    Format,
}

/// What reading the pieces of a list gives. A piece counts without the white
/// space round it, and an empty piece is passed over. The first piece that
/// names no feature ends the reading: it is the error.
pub open spec fn read_features(pieces: Seq<Seq<char>>) -> Result<Seq<AutoFeature>, Seq<char>>
    decreases pieces.len(),
{
    if pieces.len() == 0 {
        Ok(Seq::empty())
    } else {
        match read_features(pieces.drop_last()) {
            Err(unknown) => Err(unknown),
            Ok(features) => {
                let name = trim(pieces.last());
                if name.len() == 0 {
                    Ok(features)
                } else {
                    match AutoFeature::spec_parse(name) {
                        Some(feature) => Ok(features.push(feature)),
                        None => Err(name),
                    }
                }
            },
        }
    }
}

impl AutoFeature {
    /// The feature that `value` names, if it names one.
    pub open spec fn spec_parse(value: Seq<char>) -> Option<AutoFeature> {
        if value == "compress"@ {
            Some(AutoFeature::Compress)
        } else if value == "format"@ {
            Some(AutoFeature::Format)
        } else {
            None
        }
    }

    /// What reading a comma-separated list of features from `value` gives.
    pub open spec fn spec_parse_list(value: Seq<char>) -> Result<Seq<AutoFeature>, Seq<char>> {
        read_features(split(value, ','))
    }

    /// The list that holds the given features, in their order.
    pub fn from_iter(items: Vec<AutoFeature>) -> (list: CommaSeparatedVec<AutoFeature>)
        ensures
            list@ == items@,
    {
        CommaSeparatedVec::from_iter(items)
    }

    /// The feature that the characters name, if they name one.
    fn named(name: &Vec<char>) -> (feature: Option<AutoFeature>)
        ensures
            feature == AutoFeature::spec_parse(name@),
    {
        if equals(name, "compress") {
            Some(AutoFeature::Compress)
        } else if equals(name, "format") {
            Some(AutoFeature::Format)
        } else {
            None
        }
    }

    /// Reads a feature: `compress` or `format`. Any other value is rejected
    /// and handed back in the error.
    pub fn parse(value: &str) -> (feature: Result<AutoFeature, Error>)
        ensures
            match feature {
                Ok(known) => AutoFeature::spec_parse(value@) == Some(known),
                Err(error) => error matches Error::UnknownFeature(given) && given@ == value@
                    && AutoFeature::spec_parse(value@) is None,
            },
    {
        let chars = chars_of(value);
        match AutoFeature::named(&chars) {
            Some(known) => Ok(known),
            None => Err(Error::UnknownFeature(String::from_str(value))),
        }
    }

    /// Reads a list of features, separated by commas. White space round a
    /// name does not count and empty pieces are passed over, so the empty
    /// value is the empty list. The first unknown name is rejected and handed
    /// back in the error, without the white space round it.
    pub fn parse_list(value: &str) -> (list: Result<CommaSeparatedVec<AutoFeature>, Error>)
        ensures
            match list {
                Ok(features) => AutoFeature::spec_parse_list(value@) == Ok::<
                    Seq<AutoFeature>,
                    Seq<char>,
                >(features@),
                Err(error) => error matches Error::UnknownFeature(given)
                    && AutoFeature::spec_parse_list(value@) == Err::<Seq<AutoFeature>, Seq<char>>(
                    given@,
                ),
            },
    {
        let chars = chars_of(value);
        let pieces = split_at(&chars, ',');
        let mut features: Vec<AutoFeature> = Vec::new();
        let mut i: usize = 0;
        while i < pieces.len()
            invariant
                i <= pieces.len(),
                texts(pieces@) == split(value@, ','),
                read_features(texts(pieces@).take(i as int)) == Ok::<Seq<AutoFeature>, Seq<char>>(
                    features@,
                ),
            decreases pieces.len() - i,
        {
            let name = trimmed(&pieces[i]);
            proof {
                let seen = texts(pieces@).take(i + 1);
                assert(seen.drop_last() =~= texts(pieces@).take(i as int));
                assert(seen.last() == pieces@[i as int]@);
            }
            if name.len() != 0 {
                match AutoFeature::named(&name) {
                    Some(feature) => {
                        features.push(feature);
                    },
                    None => {
                        proof {
                            lemma_unknown_ends_reading(texts(pieces@), i + 1);
                        }
                        return Err(Error::UnknownFeature(string_of(&name)));
                    },
                }
            }
            i += 1;
        }
        proof {
            assert(texts(pieces@).take(pieces.len() as int) =~= texts(pieces@));
        }
        Ok(CommaSeparatedVec::from_iter(features))
    }
}

/// Once the reading of the first `upto` pieces has met an unknown name, the
/// reading of all the pieces gives that same name.
proof fn lemma_unknown_ends_reading(pieces: Seq<Seq<char>>, upto: int)
    requires
        0 <= upto <= pieces.len(),
        read_features(pieces.take(upto)) is Err,
    ensures
        read_features(pieces) == read_features(pieces.take(upto)),
    decreases pieces.len() - upto,
{
    if upto == pieces.len() {
        assert(pieces.take(upto) =~= pieces);
    } else {
        assert(pieces.take(upto + 1).drop_last() =~= pieces.take(upto));
        lemma_unknown_ends_reading(pieces, upto + 1);
    }
}

} // verus!
