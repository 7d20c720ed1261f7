use handicapper::racecard_file::{
    clean_field, race_position, read_table, split_at_char, split_fields, strip_char,
};

#[test]
fn text_is_split_at_each_comma() {
    assert_eq!(split_at_char("a,b,,c", ',', 10), vec!["a", "b", "", "c"]);
    assert_eq!(split_at_char("a,b,,c", ',', 2), vec!["a", "b"]);
    assert_eq!(split_at_char("", ',', 10), vec![""]);
    assert_eq!(split_at_char("abc", ',', 10), vec!["abc"]);
    assert_eq!(split_at_char("a,", ',', 10), vec!["a", ""]);
    assert_eq!(split_at_char(",", ',', 10), vec!["", ""]);
    assert_eq!(split_at_char("a,b", ',', 0), Vec::<&str>::new());
    for text in ["a,b,,c", "", "abc", "a,", ",", ",,é,"] {
        for limit in 0..6 {
            let want: Vec<&str> = text.split(',').take(limit).collect();
            assert_eq!(split_at_char(text, ',', limit), want);
        }
    }
}

#[test]
fn quotes_are_stripped_at_both_ends() {
    assert_eq!(strip_char("\"AQU\"", '"'), "AQU");
    assert_eq!(strip_char("\"\"A\"B\"\"", '"'), "A\"B");
    assert_eq!(strip_char("\"\"\"", '"'), "");
    assert_eq!(strip_char("", '"'), "");
    assert_eq!(strip_char("plain", '"'), "plain");
    for text in ["\"AQU\"", "\"\"A\"B\"\"", "\"\"\"", "", "plain", "\"x", "x\""] {
        assert_eq!(strip_char(text, '"'), text.trim_matches('"'));
    }
}

#[test]
fn fields_are_cleaned_inside_and_outside_their_quotes() {
    assert_eq!(clean_field("  \" Quiet Storm \"  "), "Quiet Storm");
    assert_eq!(clean_field("12"), "12");
    assert_eq!(clean_field("\"\""), "");
    assert_eq!(split_fields("\"AQU\", 20240331 ,3,\" 4 \"", 3), vec!["AQU", "20240331", "3"]);
}

#[test]
fn table_has_one_row_for_each_line() {
    let rows = read_table("\"AQU\",1,\"D\"\r\n\"AQU\",2,\"T\",extra\n", 3).unwrap();
    assert_eq!(rows, vec![vec!["AQU", "1", "D"], vec!["AQU", "2", "T"]]);
    assert_eq!(read_table("", 3), Ok(vec![]));
}

#[test]
fn short_line_is_an_error() {
    assert_eq!(
        read_table("a,b,c\na,b\na\n", 3),
        Err("Line 2 has 2 columns, expected 3".to_string())
    );
    assert_eq!(read_table("\n", 2), Err("Line 1 has 1 columns, expected 2".to_string()));
}

#[test]
fn lines_of_one_race_are_found_by_its_number() {
    let numbers = vec![Some(1), None, Some(2), Some(1), None];
    assert_eq!(race_position(&numbers, Some(1)), Some(0));
    assert_eq!(race_position(&numbers, Some(2)), Some(2));
    assert_eq!(race_position(&numbers, None), Some(1));
    assert_eq!(race_position(&numbers, Some(3)), None);
    assert_eq!(race_position(&vec![], None), None);
}
