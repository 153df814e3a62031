use factrs::dsl::fac::{fac, Call, FacError, Factor, Item, Noise};
use factrs::dsl::mark::{check_type, variable_is_tagged, BoxedTypes, MarkError};
use factrs::dsl::text::{contains_text, count_tokens, same_text};

fn parsed(items: Vec<Item>) -> Result<Factor, FacError> {
    Factor::parse(&items)
}

#[test]
fn residual_and_one_key() {
    let f = parsed(vec![Item::Path, Item::Call]).unwrap();
    assert_eq!(f, Factor { n_keys: 1, keys_are_elements: false, noise: None, robust: false });
    assert_eq!(fac(&f), vec![Call::New(1), Call::Build]);
    let g = parsed(vec![Item::Path, Item::Path]).unwrap();
    assert_eq!(g, f);
}

#[test]
fn keys_in_parentheses_or_brackets() {
    let f = parsed(vec![Item::Path, Item::Tuple(2)]).unwrap();
    assert_eq!(f, Factor { n_keys: 2, keys_are_elements: true, noise: None, robust: false });
    assert_eq!(f.new_call(), Call::New(2));
    let g = parsed(vec![Item::Path, Item::Array(3)]).unwrap();
    assert_eq!(g.n_keys, 3);
    assert!(g.keys_are_elements);
    assert_eq!(parsed(vec![Item::Path, Item::Other]), Err(FacError::KeysNotAList));
    assert_eq!(parsed(vec![Item::Path, Item::Infer]), Err(FacError::KeysNotAList));
    assert_eq!(parsed(vec![Item::Path, Item::Cast(None, "std".to_string())]), Err(FacError::KeysNotAList));
}

#[test]
fn noise_shorthands() {
    let noise = |item| parsed(vec![Item::Path, Item::Call, item]).map(|f| f.noise);
    assert_eq!(noise(Item::Path), Ok(Some(Noise::Given)));
    assert_eq!(noise(Item::Call), Ok(Some(Noise::Given)));
    assert_eq!(noise(Item::Other), Ok(Some(Noise::Given)));
    assert_eq!(noise(Item::Tuple(2)), Ok(Some(Noise::Given)));
    assert_eq!(noise(Item::Infer), Ok(Some(Noise::Unit)));
    assert_eq!(noise(Item::Cast(None, "std".to_string())), Ok(Some(Noise::ScalarSigma)));
    assert_eq!(noise(Item::Cast(None, "sigma".to_string())), Ok(Some(Noise::ScalarSigma)));
    assert_eq!(noise(Item::Cast(None, "sig".to_string())), Ok(Some(Noise::ScalarSigma)));
    assert_eq!(noise(Item::Cast(None, "cov".to_string())), Ok(Some(Noise::ScalarCov)));
    assert_eq!(noise(Item::Cast(Some(2), "std".to_string())), Ok(Some(Noise::SplitSigma)));
    assert_eq!(noise(Item::Cast(Some(2), "cov".to_string())), Ok(Some(Noise::SplitCov)));
    assert_eq!(noise(Item::Cast(Some(3), "cov".to_string())), Err(FacError::SplitNotAPair));
    assert_eq!(noise(Item::Cast(Some(1), "sig".to_string())), Err(FacError::SplitNotAPair));
    assert_eq!(noise(Item::Cast(None, "f64".to_string())), Err(FacError::UnknownCast));
    assert_eq!(noise(Item::Cast(Some(3), "variance".to_string())), Err(FacError::UnknownCast));
    assert_eq!(noise(Item::Cast(None, "covar".to_string())), Err(FacError::UnknownCast));
    assert_eq!(noise(Item::Cast(None, "".to_string())), Err(FacError::UnknownCast));
}

#[test]
fn robust_kernel_comes_fourth_and_is_called_before_the_noise() {
    let f = parsed(vec![Item::Path, Item::Tuple(2), Item::Cast(None, "std".to_string()), Item::Call]).unwrap();
    assert!(f.robust);
    assert_eq!(f.robust_call(), Some(Call::Robust));
    assert_eq!(f.noise_call(), Some(Call::Noise(Noise::ScalarSigma)));
    assert_eq!(
        fac(&f),
        vec![Call::New(2), Call::Robust, Call::Noise(Noise::ScalarSigma), Call::Build]
    );
    let g = parsed(vec![Item::Path, Item::Call, Item::Infer, Item::Call]).unwrap();
    assert_eq!(fac(&g), vec![Call::New(1), Call::Robust, Call::Noise(Noise::Unit), Call::Build]);
    let h = parsed(vec![Item::Path, Item::Call, Item::Path]).unwrap();
    assert_eq!(h.robust_call(), None);
    assert_eq!(fac(&h), vec![Call::New(1), Call::Noise(Noise::Given), Call::Build]);
}

#[test]
fn too_few_and_too_many_items() {
    assert_eq!(parsed(vec![]), Err(FacError::TooFewItems));
    assert_eq!(parsed(vec![Item::Path]), Err(FacError::TooFewItems));
    assert_eq!(
        parsed(vec![Item::Path, Item::Call, Item::Infer, Item::Call, Item::Call]),
        Err(FacError::TooManyItems)
    );
    assert_eq!(
        parsed(vec![Item::Path, Item::Other, Item::Infer, Item::Call, Item::Call]),
        Err(FacError::TooManyItems)
    );
}

#[test]
fn messages() {
    assert_eq!(FacError::TooFewItems.message(), "Expected at least two items");
    assert_eq!(FacError::TooManyItems.message(), "Expected at most four items");
    assert_eq!(FacError::KeysNotAList.message(), "Expected keys in brackets or parentheses");
    assert_eq!(FacError::UnknownCast.message(), "Unknown cast for noise");
    assert_eq!(
        FacError::SplitNotAPair.message(),
        "Expected tuple with two elements for split std/cov"
    );
    assert_eq!(FacError::Syntax.message(), "Expected expressions with commas between them");
    assert_eq!(FacError::TooLong.message(), "Expected a shorter text");
    assert_eq!(MarkError::MissingTrait.message(), "Missing trait");
    assert_eq!(MarkError::NotAValidTrait.message(), "Not a valid trait");
    assert_eq!(MarkError::NoDtypeGeneric.message(), "variable should have dtype generic");
}

#[test]
fn trait_names_are_sorted_into_kinds() {
    assert_eq!(check_type(Some("Residual")), Ok(BoxedTypes::Residual));
    assert_eq!(check_type(Some("Residual2")), Ok(BoxedTypes::Residual));
    assert_eq!(check_type(Some("Variable")), Ok(BoxedTypes::Variable));
    assert_eq!(check_type(Some("NoiseModel")), Ok(BoxedTypes::Noise));
    assert_eq!(check_type(Some("RobustCost")), Ok(BoxedTypes::Robust));
    assert_eq!(check_type(Some("MyVariableResidual")), Ok(BoxedTypes::Residual));
    assert_eq!(check_type(Some("RobustNoise")), Ok(BoxedTypes::Noise));
    assert_eq!(check_type(Some("Clone")), Err(MarkError::NotAValidTrait));
    assert_eq!(check_type(Some("residual")), Err(MarkError::NotAValidTrait));
    assert_eq!(check_type(Some("")), Err(MarkError::NotAValidTrait));
    assert_eq!(check_type(None), Err(MarkError::MissingTrait));
}

#[test]
fn variables_are_tagged_with_one_generic() {
    assert_eq!(variable_is_tagged(0), Err(MarkError::NoDtypeGeneric));
    assert_eq!(variable_is_tagged(1), Ok(true));
    assert_eq!(variable_is_tagged(2), Ok(false));
}

#[test]
fn text_comparison() {
    assert!(same_text("cov", "cov"));
    assert!(!same_text("cov", "co"));
    assert!(!same_text("cov", "cow"));
    assert!(same_text("", ""));
    assert!(contains_text("BetweenResidual", "Residual"));
    assert!(contains_text("Residual", ""));
    assert!(contains_text("", ""));
    assert!(!contains_text("Res", "Residual"));
    assert!(!contains_text("Residua1Residua", "Residual"));
    assert!(contains_text("xNoise", "Noise"));
    assert!(contains_text("h\u{e9}Noise\u{e9}", "Noise"));
}

fn text(t: &str) -> Result<Factor, FacError> {
    Factor::parse_text(t)
}

#[test]
fn factors_written_as_text() {
    assert_eq!(
        text("prior, X(0)"),
        Ok(Factor { n_keys: 1, keys_are_elements: false, noise: None, robust: false })
    );
    assert_eq!(
        text("between, (X(0), X(1))"),
        Ok(Factor { n_keys: 2, keys_are_elements: true, noise: None, robust: false })
    );
    assert_eq!(text("res, [a, b, c]").map(|f| f.n_keys), Ok(3));
    assert_eq!(text("prior, X(0), noise").map(|f| f.noise), Ok(Some(Noise::Given)));
    assert_eq!(text("prior, X(0), 0.1 as std").map(|f| f.noise), Ok(Some(Noise::ScalarSigma)));
    assert_eq!(text("prior, X(0), 0.1 as sigma").map(|f| f.noise), Ok(Some(Noise::ScalarSigma)));
    assert_eq!(text("prior, X(0), 0.1 as sig").map(|f| f.noise), Ok(Some(Noise::ScalarSigma)));
    assert_eq!(text("prior, X(0), 0.1 as cov").map(|f| f.noise), Ok(Some(Noise::ScalarCov)));
    assert_eq!(text("prior, X(0), (0.1, 0.3) as std").map(|f| f.noise), Ok(Some(Noise::SplitSigma)));
    assert_eq!(text("prior, X(0), (0.1, 0.3) as cov").map(|f| f.noise), Ok(Some(Noise::SplitCov)));
    assert_eq!(text("prior, X(0), _").map(|f| f.noise), Ok(Some(Noise::Unit)));
    let full = text("res, (X(0), X(1)), 0.1 as std, Huber::default()").unwrap();
    assert_eq!(
        fac(&full),
        vec![Call::New(2), Call::Robust, Call::Noise(Noise::ScalarSigma), Call::Build]
    );
    let unit = text("prior, X(0), _, Huber::default(),").unwrap();
    assert_eq!(fac(&unit), vec![Call::New(1), Call::Robust, Call::Noise(Noise::Unit), Call::Build]);
}

#[test]
fn texts_that_are_no_factors() {
    assert_eq!(text(""), Err(FacError::TooFewItems));
    assert_eq!(text("prior"), Err(FacError::TooFewItems));
    assert_eq!(text("a, b, c, d, e"), Err(FacError::TooManyItems));
    assert_eq!(text("prior, 3"), Err(FacError::KeysNotAList));
    assert_eq!(text("prior, X(0), 0.1 as f32"), Err(FacError::UnknownCast));
    assert_eq!(text("prior, X(0), (1, 2, 3) as std"), Err(FacError::SplitNotAPair));
    assert_eq!(text("prior, X(0), (1, 2, 3) as meters"), Err(FacError::UnknownCast));
    assert_eq!(text("prior X(0)"), Err(FacError::Syntax));
    assert_eq!(text("prior, (X(0)"), Err(FacError::Syntax));
    assert_eq!(text("prior,, X(0)"), Err(FacError::Syntax));
    let many = format!("prior, [{}]", "x, ".repeat(40));
    assert_eq!(text(&many), Err(FacError::TooLong));
    let nested = format!("prior, {}x{}", "(".repeat(40), ")".repeat(40));
    assert_eq!(text(&nested), Err(FacError::TooLong));
}

#[test]
fn tokens_are_counted_from_above() {
    assert_eq!(count_tokens(""), 0);
    assert_eq!(count_tokens("  \t\n"), 0);
    assert_eq!(count_tokens("prior"), 1);
    assert_eq!(count_tokens("prior, X(0)"), 6);
    assert_eq!(count_tokens("a_b1  c"), 2);
    assert_eq!(count_tokens("0.1 as std"), 5);
    assert_eq!(count_tokens("Huber::default()"), 6);
    assert_eq!(count_tokens("&&x"), 3);
    assert_eq!(count_tokens("h\u{e9}"), 3);
    assert_eq!(count_tokens("between, (X(0), X(1)), (0.1, 0.3) as std, Huber::default()"), 32);
}

// The deepest nesting of the pattern that has no more tokens than are read,
// between a front and a middle.
fn deepest(front: &str, open: &str, middle: &str, close: &str) -> String {
    let build = |levels: usize| {
        format!("{}{}{}{}", front, open.repeat(levels), middle, close.repeat(levels))
    };
    let mut levels = 0;
    while count_tokens(&build(levels + 1)) <= 64 {
        levels += 1;
    }
    assert!(levels >= 8);
    assert_eq!(text(&build(levels + 64)), Err(FacError::TooLong));
    build(levels)
}

#[test]
fn expressions_nested_as_deep_as_is_read() {
    let keys = |open: &str, close: &str| text(&deepest("a, ", open, "x", close));
    assert_eq!(keys("(", ")"), Err(FacError::KeysNotAList));
    assert_eq!(keys("{", "}"), Err(FacError::KeysNotAList));
    assert_eq!(keys("[", "]").map(|f| f.n_keys), Ok(1));
    assert_eq!(keys("(", ",)").map(|f| f.n_keys), Ok(1));
    assert_eq!(keys("X(", ")").map(|f| f.n_keys), Ok(1));
    for (open, close) in [
        ("!", ""),
        ("-", ""),
        ("*", ""),
        ("&", ""),
        ("&mut ", ""),
        ("||", ""),
        ("|_|", ""),
        ("{(", ")}"),
        ("unsafe{", "}"),
        ("match x{_=>", "}"),
        ("if x{", "}"),
        ("loop{", "}"),
        ("return ", ""),
        ("break ", ""),
        ("x=", ""),
        ("..", ""),
        ("x[", "]"),
        ("||->T{", "}"),
        ("x+(", ")"),
        ("x.f(", ")"),
        ("S{a:", "}"),
        ("[x;", "]"),
    ] {
        let refused = open == "..";
        let want = if refused { FacError::Syntax } else { FacError::KeysNotAList };
        assert_eq!(keys(open, close), Err(want), "{}", open);
    }
    assert_eq!(text(&deepest("a, |", "&", "x| 1", "")), Err(FacError::KeysNotAList));
    assert_eq!(text(&deepest("a, |", "(", "x", ",)")), Err(FacError::Syntax));
    let long = format!("prior, X({}), {}", "0".repeat(300), "n".repeat(300));
    assert_eq!(text(&long).map(|f| (f.n_keys, f.noise)), Ok((1, Some(Noise::Given))));
}

#[test]
fn types_nested_as_deep_as_is_read() {
    for (open, close) in [
        ("(", ")"),
        ("(", ",)"),
        ("&", ""),
        ("&mut ", ""),
        ("&'a ", ""),
        ("[", "]"),
        ("[", ";1]"),
        ("A<", ">"),
        ("a::B<", ">"),
        ("*const ", ""),
        ("fn(", ")"),
        ("fn()->", ""),
        ("impl A<", ">"),
        ("dyn A<", ">"),
        ("<", " as A>::B"),
    ] {
        let t = deepest("a, b, 0 as ", open, "T", close);
        assert_eq!(text(&t), Err(FacError::UnknownCast), "{}", open);
    }
}
