//! The shorthand that builds a factor from a residual, its keys, and
//! optionally a noise model and a robust kernel.

use quote::ToTokens;
use syn::Expr;
use syn::parse::Parser;
use syn::punctuated::Punctuated;
use syn::token::Comma;
use vstd::prelude::*;
use vstd::string::*;
use crate::dsl::text::{count_tokens, same_text, token_bound};

verus! {

/// What is read of one of the comma-separated items.
#[derive(Debug, Clone, PartialEq, Eq)]
pub enum Item {
    /// `[a, b, ..]`, with the number of its elements.
    Array(usize),
    /// `(a, b, ..)`, with the number of its elements.
    Tuple(usize),
    /// A path, such as `x`.
    Path,
    /// A call, such as `X(0)`.
    Call,
    /// `value as ty`: the number of elements of `value` where it is a
    /// tuple, and the text of `ty`.
    Cast(Option<usize>, String),
    /// `_`.
    Infer,
    /// Any other expression.
    Other,
}

/// Where the noise model of a factor comes from.
#[derive(Debug, Clone, Copy, PartialEq, Eq, Structural)]
pub enum Noise {
    /// The item is the noise model.
    Given,
    /// One standard deviation for every component.
    ScalarSigma,
    /// One variance for every component.
    ScalarCov,
    /// Two standard deviations: rotation first, then translation.
    SplitSigma,
    /// Two variances: rotation first, then translation.
    SplitCov,
    /// Unit noise.
    Unit,
}

/// What a factor is built from.
#[derive(Debug, Clone, Copy, PartialEq, Eq, Structural)]
pub struct Factor {
    /// The number of keys, which is the residual's arity.
    pub n_keys: usize,
    /// Whether the keys are the elements of the second item (or that item
    /// itself, as the one key).
    pub keys_are_elements: bool,
    /// The noise model, where one is given.
    pub noise: Option<Noise>,
    /// Whether a robust kernel is given.
    pub robust: bool,
}

/// Why the items do not describe a factor.
#[derive(Debug, Clone, Copy, PartialEq, Eq, Structural)]
pub enum FacError {
    /// There is no residual, or there are no keys.
    TooFewItems,
    /// There is more than a residual, keys, a noise model and a kernel.
    TooManyItems,
    /// The keys are neither a list in brackets or parentheses nor one key.
    KeysNotAList,
    /// The noise is cast to something other than `std`, `sigma`, `sig` or
    /// `cov`.
    UnknownCast,
    /// The noise is a tuple of other than two values.
    SplitNotAPair,
    /// The text is not a list of expressions with commas between them.
    Syntax,
    /// The text may have more than `MAX_TOKENS` tokens.
    TooLong,
}

impl FacError {
    /// The message shown to the user.
    pub fn message(&self) -> (r: &'static str)
        ensures
            r@ == (match *self {
                FacError::TooFewItems => "Expected at least two items"@,
                FacError::TooManyItems => "Expected at most four items"@,
                FacError::KeysNotAList => "Expected keys in brackets or parentheses"@,
                FacError::UnknownCast => "Unknown cast for noise"@,
                FacError::SplitNotAPair => "Expected tuple with two elements for split std/cov"@,
                FacError::Syntax => "Expected expressions with commas between them"@,
                FacError::TooLong => "Expected a shorter text"@,
            }),
    {
        match self {
            FacError::TooFewItems => "Expected at least two items",
            FacError::TooManyItems => "Expected at most four items",
            FacError::KeysNotAList => "Expected keys in brackets or parentheses",
            FacError::UnknownCast => "Unknown cast for noise",
            FacError::SplitNotAPair => "Expected tuple with two elements for split std/cov",
            FacError::Syntax => "Expected expressions with commas between them",
            FacError::TooLong => "Expected a shorter text",
        }
    }
}

/// One call of the chain that builds the factor.
#[derive(Debug, Clone, Copy, PartialEq, Eq, Structural)]
pub enum Call {
    /// The constructor for a residual of the given arity, on the residual
    /// and its keys.
    New(usize),
    /// The call that sets the robust kernel.
    Robust,
    /// The call that sets the noise model.
    Noise(Noise),
    /// The call that builds the factor.
    Build,
}

/// The keys that the second item gives: how many, and whether they are the
/// item's elements.
pub open spec fn keys_of(item: Item) -> Option<(usize, bool)> {
    match item {
        Item::Array(n) => Some((n, true)),
        Item::Tuple(n) => Some((n, true)),
        Item::Path => Some((1, false)),
        Item::Call => Some((1, false)),
        _ => None,
    }
}

/// Whether a cast's type says that the value is a variance (`Some(true)`), a
/// standard deviation (`Some(false)`), or neither.
pub open spec fn cast_is_cov(ty: Seq<char>) -> Option<bool> {
    if ty == "cov"@ {
        Some(true)
    } else if ty == "std"@ || ty == "sigma"@ || ty == "sig"@ {
        Some(false)
    } else {
        None
    }
}

/// The noise model that the third item stands for.
pub open spec fn noise_of(item: Item) -> Result<Noise, FacError> {
    match item {
        Item::Cast(tuple, ty) => match cast_is_cov(ty@) {
            None => Err(FacError::UnknownCast),
            Some(cov) => match tuple {
                Some(n) => if n != 2 {
                    Err(FacError::SplitNotAPair)
                } else if cov {
                    Ok(Noise::SplitCov)
                } else {
                    Ok(Noise::SplitSigma)
                },
                None => if cov {
                    Ok(Noise::ScalarCov)
                } else {
                    Ok(Noise::ScalarSigma)
                },
            },
        },
        Item::Infer => Ok(Noise::Unit),
        _ => Ok(Noise::Given),
    }
}

/// The factor that a list of items describes: a residual, then the keys,
/// then the noise model and the robust kernel where they are given.
pub open spec fn parse_model(items: Seq<Item>) -> Result<Factor, FacError> {
    if items.len() < 2 {
        Err(FacError::TooFewItems)
    } else if items.len() > 4 {
        Err(FacError::TooManyItems)
    } else {
        match keys_of(items[1]) {
            None => Err(FacError::KeysNotAList),
            Some((n_keys, keys_are_elements)) => {
                let robust = items.len() == 4;
                if items.len() >= 3 {
                    match noise_of(items[2]) {
                        Err(e) => Err(e),
                        Ok(noise) => Ok(
                            Factor { n_keys, keys_are_elements, noise: Some(noise), robust },
                        ),
                    }
                } else {
                    Ok(Factor { n_keys, keys_are_elements, noise: None, robust })
                }
            },
        }
    }
}

/// The calls that build a factor: the constructor, then the robust kernel
/// and the noise model where they are given, then `build`.
pub open spec fn calls_model(factor: Factor) -> Seq<Call> {
    seq![Call::New(factor.n_keys)] + (if factor.robust {
        seq![Call::Robust]
    } else {
        Seq::empty()
    }) + (match factor.noise {
        Some(noise) => seq![Call::Noise(noise)],
        None => Seq::empty(),
    }) + seq![Call::Build]
}

fn classify_cast(ty: &str) -> (r: Option<bool>)
    ensures
        r == cast_is_cov(ty@),
{
    if same_text(ty, "cov") {
        Some(true)
    } else if same_text(ty, "std") || same_text(ty, "sigma") || same_text(ty, "sig") {
        Some(false)
    } else {
        None
    }
}

fn classify_noise(item: &Item) -> (r: Result<Noise, FacError>)
    ensures
        r == noise_of(*item),
{
    match item {
        Item::Cast(tuple, ty) => match classify_cast(ty.as_str()) {
            None => Err(FacError::UnknownCast),
            Some(cov) => match tuple {
                Some(n) => if *n != 2 {
                    Err(FacError::SplitNotAPair)
                } else if cov {
                    Ok(Noise::SplitCov)
                } else {
                    Ok(Noise::SplitSigma)
                },
                None => if cov {
                    Ok(Noise::ScalarCov)
                } else {
                    Ok(Noise::ScalarSigma)
                },
            },
        },
        Item::Infer => Ok(Noise::Unit),
        _ => Ok(Noise::Given),
    }
}

/// The most tokens that a text may have to be read. The parser descends
/// into an expression as deep as the expression is nested, which is at most
/// one level to a token, and a stack of two megabytes was found to hold the
/// descent into every nesting of this many tokens that was tried.
pub const MAX_TOKENS: usize = 64;

/// Parses the text as expressions with commas between them, and reads off
/// each what the rules ask of it; `None` where the parser refuses the text.
///
/// The call is `Punctuated::<Expr, Comma>::parse_terminated` of `syn`,
/// through `Parser::parse_str`, and the type of a cast is printed through
/// `ToTokens::to_token_stream`. Nothing is promised of the result. The text
/// is split into tokens, and the tokens are printed, by the compiler where
/// the process runs inside a procedural macro and by `proc_macro2` itself
/// elsewhere, and which of the two is a state of the process that can
/// change while it runs: the same text need not give the same items twice.
/// Texts of many tokens are left out, as the parser's descent is as deep as
/// the text is nested.
#[verifier::external_body]
fn read_items(text: &str) -> (r: Option<Vec<Item>>)
    requires
        token_bound(text.spec_bytes()) <= MAX_TOKENS,
{
    let exprs = Punctuated::<Expr, Comma>::parse_terminated.parse_str(text).ok()?;
    Some(exprs.iter().map(|e| match e {
        Expr::Array(a) => Item::Array(a.elems.len()),
        Expr::Tuple(t) => Item::Tuple(t.elems.len()),
        Expr::Path(_) => Item::Path,
        Expr::Call(_) => Item::Call,
        Expr::Cast(c) => Item::Cast(
            match c.expr.as_ref() { Expr::Tuple(t) => Some(t.elems.len()), _ => None },
            c.ty.to_token_stream().to_string(),
        ),
        Expr::Infer(_) => Item::Infer,
        _ => Item::Other,
    }).collect())
}

impl Factor {
    /// Reads a factor off the text between the brackets of the shorthand.
    ///
    /// A text that may have more than `MAX_TOKENS` tokens is refused as too
    /// long, and no other text is. Any other text goes to the parser of
    /// Rust's expressions: where the parser refuses it, the text is refused
    /// for its syntax, and else the result is what `parse` reads off the
    /// items that the parser found.
    pub fn parse_text(text: &str) -> (r: Result<Factor, FacError>)
        ensures
            token_bound(text.spec_bytes()) > MAX_TOKENS <==> r == Err::<Factor, FacError>(
                FacError::TooLong,
            ),
            token_bound(text.spec_bytes()) <= MAX_TOKENS ==> r == Err::<Factor, FacError>(
                FacError::Syntax,
            ) || exists|items: Seq<Item>| r == parse_model(items),
    {
        if count_tokens(text) > MAX_TOKENS {
            return Err(FacError::TooLong);
        }
        match read_items(text) {
            None => Err(FacError::Syntax),
            Some(items) => {
                let r = Factor::parse(&items);
                assert(r == parse_model(items@));
                r
            },
        }
    }

    /// Reads a factor off the items of the shorthand.
    pub fn parse(items: &Vec<Item>) -> (r: Result<Factor, FacError>)
        ensures
            r == parse_model(items@),
    {
        if items.len() < 2 {
            return Err(FacError::TooFewItems);
        } else if items.len() > 4 {
            return Err(FacError::TooManyItems);
        }
        let (n_keys, keys_are_elements) = match &items[1] {
            Item::Array(n) => (*n, true),
            Item::Tuple(n) => (*n, true),
            Item::Path => (1, false),
            Item::Call => (1, false),
            _ => {
                return Err(FacError::KeysNotAList);
            },
        };
        let noise = if items.len() >= 3 {
            match classify_noise(&items[2]) {
                Err(e) => {
                    return Err(e);
                },
                Ok(noise) => Some(noise),
            }
        } else {
            None
        };
        let robust = items.len() == 4;
        Ok(Factor { n_keys, keys_are_elements, noise, robust })
    }

    /// The arity of the constructor that is called.
    pub fn new_call(&self) -> (r: Call)
        ensures
            r == Call::New(self.n_keys),
    {
        Call::New(self.n_keys)
    }

    /// The call that sets the noise model, where one is given.
    pub fn noise_call(&self) -> (r: Option<Call>)
        ensures
            r == (match self.noise {
                Some(noise) => Some(Call::Noise(noise)),
                None => None,
            }),
    {
        match self.noise {
            Some(noise) => Some(Call::Noise(noise)),
            None => None,
        }
    }

    /// The call that sets the robust kernel, where one is given.
    pub fn robust_call(&self) -> (r: Option<Call>)
        ensures
            r == (if self.robust {
                Some(Call::Robust)
            } else {
                None
            }),
    {
        if self.robust {
            Some(Call::Robust)
        } else {
            None
        }
    }
}

/// The chain of calls that builds the factor.
pub fn fac(factor: &Factor) -> (r: Vec<Call>)
    ensures
        r@ == calls_model(*factor),
{
    let mut calls: Vec<Call> = Vec::new();
    calls.push(factor.new_call());
    if let Some(call) = factor.robust_call() {
        calls.push(call);
    }
    if let Some(call) = factor.noise_call() {
        calls.push(call);
    }
    calls.push(Call::Build);
    assert(calls@ =~= calls_model(*factor));
    calls
}

} // verus!
