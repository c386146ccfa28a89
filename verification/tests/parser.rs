use ohmcalc::expr::Expr;
use ohmcalc::parser::{
    double_parser, double_suffix_parser, number_from_scan, parse_blocks, percent_from_scan,
    percentage_minus_parser, percentage_plus_minus_parser, percentage_plus_minus_parser2,
    percentage_plus_parser, scan_number, suffix_from_scan, try_parsers, Block, ParseFailure,
};
use ohmcalc::types::Dim;

fn eval(e: &Expr) -> f64 {
    match e {
        Expr::Literal(text) => text.parse::<f64>().unwrap(),
        Expr::Abs(a) => eval(a).abs(),
        Expr::Sqrt(a) => eval(a).sqrt(),
        Expr::Sum(a, b) => eval(a) + eval(b),
        Expr::Diff(a, b) => eval(a) - eval(b),
        Expr::Prod(a, b) => eval(a) * eval(b),
        Expr::Quot(a, b) => eval(a) / eval(b),
    }
}

fn number_of(block: &Block) -> f64 {
    match block {
        Block::TolMinus(t) => eval(t),
        Block::TolPlus(t) => eval(t),
        Block::TolPlusMinus(t) => eval(t),
        Block::Number(n) => eval(n),
        Block::NumberSuffix((n, _)) => eval(n),
    }
}

fn failure(remainder: &str, fatal: bool) -> ParseFailure {
    ParseFailure { remainder: remainder.to_string(), fatal }
}

#[test]
fn test_percentage_minus_parser() {
    let parsed = percentage_minus_parser("-5%");
    assert_eq!(parsed, Ok(("", Block::TolMinus(Expr::abs(Expr::literal("5"))))));
    assert_eq!(number_of(&parsed.unwrap().1), 5.0);
}

#[test]
fn test_percentage_plus_minus_parser() {
    let parsed = percentage_plus_minus_parser("+/-5%");
    assert_eq!(parsed, Ok(("", Block::TolPlusMinus(Expr::literal("5")))));
    assert_eq!(number_of(&parsed.unwrap().1), 5.0);
}

#[test]
fn test_percentage_plus_parser() {
    let parsed = percentage_plus_parser("+5%");
    assert_eq!(parsed, Ok(("", Block::TolPlus(Expr::literal("5")))));
    assert_eq!(number_of(&parsed.unwrap().1), 5.0);
}

#[test]
fn test_percentage_plus_minus_parser2() {
    let parsed = percentage_plus_minus_parser2("5%");
    assert_eq!(parsed, Ok(("", Block::TolPlusMinus(Expr::literal("5")))));
    assert_eq!(number_of(&parsed.unwrap().1), 5.0);
    assert!(percentage_plus_minus_parser2("5").is_err());
}

#[test]
fn test_double_parser() {
    let parsed = double_parser("5.67");
    assert_eq!(parsed, Ok(("", Block::Number(Expr::literal("5.67")))));
    assert_eq!(number_of(&parsed.unwrap().1), 5.67);
}

#[test]
fn test_double_suffix_parser() {
    let parsed = double_suffix_parser("5k");
    assert_eq!(parsed, Ok(("", Block::NumberSuffix((Expr::literal("5"), Dim::Kilo)))));
    assert_eq!(number_of(&parsed.unwrap().1), 5.0);
    let parsed = double_suffix_parser("10m");
    assert_eq!(parsed, Ok(("", Block::NumberSuffix((Expr::literal("10"), Dim::Milli)))));
    assert_eq!(number_of(&parsed.unwrap().1), 10.0);
}

#[test]
fn test_parse_blocks() {
    let input = "5% 77m";
    let result = parse_blocks(input);
    assert_eq!(
        result,
        Ok(vec![
            Block::TolPlusMinus(Expr::literal("5")),
            Block::NumberSuffix((Expr::literal("77"), Dim::Milli))
        ])
    );
    let blocks = result.unwrap();
    assert_eq!(number_of(&blocks[0]), 5.0);
    assert_eq!(number_of(&blocks[1]), 77.0);
}

#[test]
fn test_combined_blocks() {
    let input = "10m +5% -5% +/-5%";
    let result = parse_blocks(input);
    assert_eq!(
        result,
        Ok(vec![
            Block::NumberSuffix((Expr::literal("10"), Dim::Milli)),
            Block::TolPlus(Expr::literal("5")),
            Block::TolMinus(Expr::abs(Expr::literal("5"))),
            Block::TolPlusMinus(Expr::literal("5")),
        ])
    );
    let blocks = result.unwrap();
    assert_eq!(number_of(&blocks[0]), 10.0);
    assert_eq!(number_of(&blocks[1]), 5.0);
    assert_eq!(number_of(&blocks[2]), 5.0);
    assert_eq!(number_of(&blocks[3]), 5.0);
}

#[test]
fn scan_number_finds_the_end_of_the_number() {
    assert_eq!(scan_number("12"), Ok(2));
    assert_eq!(scan_number("12k"), Ok(2));
    assert_eq!(scan_number("-1.5e3%"), Ok(6));
    assert_eq!(scan_number(".5 rest"), Ok(2));
    assert_eq!(scan_number("5."), Ok(2));
    assert_eq!(scan_number("nan"), Ok(3));
    assert_eq!(scan_number("infinity"), Ok(3));
}

#[test]
fn scan_number_tells_no_number_from_a_broken_one() {
    assert_eq!(scan_number(""), Err(false));
    assert_eq!(scan_number("x12"), Err(false));
    assert_eq!(scan_number(" 12"), Err(false));
    assert_eq!(scan_number("%"), Err(false));
    assert_eq!(scan_number("5e"), Err(true));
    assert_eq!(scan_number("5e+x"), Err(true));
}

#[test]
fn forms_from_a_given_scan() {
    assert_eq!(percent_from_scan("12%x", Ok(2)), Ok(("x", Expr::literal("12"))));
    assert_eq!(percent_from_scan("12x", Ok(2)), Err(failure("x", false)));
    assert_eq!(percent_from_scan("12", Ok(2)), Err(failure("", false)));
    assert_eq!(percent_from_scan("ab", Err(false)), Err(failure("ab", false)));
    assert_eq!(percent_from_scan("5e", Err(true)), Err(failure("5e", true)));
    assert_eq!(
        suffix_from_scan("12G rest", Ok(2)),
        Ok((" rest", Block::NumberSuffix((Expr::literal("12"), Dim::Giga))))
    );
    assert_eq!(suffix_from_scan("12g", Ok(2)), Err(failure("g", false)));
    assert_eq!(suffix_from_scan("12", Ok(2)), Err(failure("", false)));
    assert_eq!(number_from_scan("12g", Ok(2)), Ok(("g", Block::Number(Expr::literal("12")))));
    assert_eq!(number_from_scan("g", Err(false)), Err(failure("g", false)));
}

#[test]
fn every_magnitude_letter_is_read() {
    let letters = [
        ("1p", Dim::Pico),
        ("1n", Dim::Nano),
        ("1u", Dim::Micro),
        ("1m", Dim::Milli),
        ("1k", Dim::Kilo),
        ("1M", Dim::Mega),
        ("1G", Dim::Giga),
        ("1T", Dim::Tera),
    ];
    for (text, dim) in letters {
        assert_eq!(
            try_parsers(text),
            Ok(("", Block::NumberSuffix((Expr::literal("1"), dim))))
        );
    }
    // The letters are matched by case, and no other letter is a magnitude.
    assert_eq!(try_parsers("1K"), Ok(("K", Block::Number(Expr::literal("1")))));
    assert_eq!(try_parsers("1P"), Ok(("P", Block::Number(Expr::literal("1")))));
    assert_eq!(try_parsers("1g"), Ok(("g", Block::Number(Expr::literal("1")))));
}

#[test]
fn the_forms_are_tried_in_order() {
    assert_eq!(try_parsers("+5%"), Ok(("", Block::TolPlus(Expr::literal("5")))));
    assert_eq!(try_parsers("-5%"), Ok(("", Block::TolMinus(Expr::abs(Expr::literal("5"))))));
    assert_eq!(try_parsers("+/-5%"), Ok(("", Block::TolPlusMinus(Expr::literal("5")))));
    assert_eq!(try_parsers("5%"), Ok(("", Block::TolPlusMinus(Expr::literal("5")))));
    // Without a percent sign a sign belongs to the number.
    assert_eq!(try_parsers("+5"), Ok(("", Block::Number(Expr::literal("+5")))));
    assert_eq!(try_parsers("-5k"), Ok(("", Block::NumberSuffix((Expr::literal("-5"), Dim::Kilo)))));
    // A minus tolerance drops the sign of its number.
    let parsed = try_parsers("--5%").unwrap();
    assert_eq!(parsed.0, "");
    assert_eq!(number_of(&parsed.1), 5.0);
    // Nothing that starts a number.
    assert_eq!(try_parsers("x"), Err(failure("x", false)));
    assert_eq!(try_parsers(""), Err(failure("", false)));
    // A number that breaks off behind its exponent mark ends the reading.
    assert_eq!(try_parsers("5e"), Err(failure("5e", true)));
    assert_eq!(try_parsers("+5e%"), Err(failure("5e%", true)));
}

#[test]
fn trailing_text_is_handed_back() {
    assert_eq!(parse_blocks("5%%"), Err(failure("%", false)));
    assert_eq!(parse_blocks("12x"), Err(failure("x", false)));
    assert_eq!(parse_blocks("12 x"), Err(failure(" x", false)));
    assert_eq!(parse_blocks("12k5"), Err(failure("5", false)));
    assert_eq!(parse_blocks("12 "), Err(failure(" ", false)));
    assert_eq!(parse_blocks("12\n5%"), Err(failure("\n5%", false)));
    assert_eq!(parse_blocks("x"), Err(failure("x", false)));
    assert_eq!(parse_blocks(""), Err(failure("", false)));
    assert_eq!(parse_blocks("12 5e"), Err(failure("5e", true)));
}

#[test]
fn tokens_are_separated_by_spaces_and_tabs() {
    assert_eq!(
        parse_blocks("1 \t 2"),
        Ok(vec![Block::Number(Expr::literal("1")), Block::Number(Expr::literal("2"))])
    );
    assert_eq!(
        parse_blocks("1k  +2%"),
        Ok(vec![
            Block::NumberSuffix((Expr::literal("1"), Dim::Kilo)),
            Block::TolPlus(Expr::literal("2"))
        ])
    );
}
