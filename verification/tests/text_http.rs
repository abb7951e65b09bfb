use yeast::http::{
    classify_header_line, extract_http_body, http_get_request, json_response, parse_path_query,
    parse_request_line, plain_response, preflight_response, HeaderLine, QueryParams,
};
use yeast::text::{
    chars_of, concat_str, contains_str, decimal_string, find_char_in, find_seq, parse_decimal,
    split_char, split_whitespace, starts_with_str, str_eq, substring, trim, trim_matches_char,
};

#[test]
fn text_helpers_on_plain_values() {
    assert_eq!(chars_of("héllo"), vec!['h', 'é', 'l', 'l', 'o']);
    assert_eq!(split_char("a,b,,c", ','), vec!["a", "b", "", "c"]);
    assert_eq!(split_char("", ','), vec![""]);
    assert_eq!(split_whitespace("  quote   aapl \t"), vec!["quote", "aapl"]);
    assert!(split_whitespace("   ").is_empty());
    assert_eq!(trim("  \t x y \n"), "x y");
    assert_eq!(trim_matches_char("\"\"abc\"", '"'), "abc");
    assert_eq!(concat_str("ab", "cd"), "abcd");
    assert!(contains_str("Access Denied here", "Denied"));
    assert!(!contains_str("abc", "abd"));
    assert!(starts_with_str("/api/v1/x", "/api/"));
    assert!(!starts_with_str("/a", "/api"));
    assert_eq!(substring("abcdef", 2, 4), "cd");
    assert!(str_eq("x", "x"));
    assert!(!str_eq("x", "y"));
}

#[test]
fn searching_characters() {
    let s = chars_of("a=b=c");
    assert_eq!(find_char_in(&s, '=', 0, 5), Some(1));
    assert_eq!(find_char_in(&s, '=', 2, 5), Some(3));
    assert_eq!(find_char_in(&s, '#', 0, 5), None);
    assert_eq!(find_seq(&chars_of("xx\r\n\r\nyy"), &chars_of("\r\n\r\n")), Some(2));
    assert_eq!(find_seq(&chars_of("abc"), &chars_of("d")), None);
}

#[test]
fn decimal_numbers() {
    assert_eq!(decimal_string(0), "0");
    assert_eq!(decimal_string(120), "120");
    assert_eq!(decimal_string(u64::MAX), "18446744073709551615");
    assert_eq!(parse_decimal("42", 100), Some(42));
    assert_eq!(parse_decimal("+7", 100), Some(7));
    assert_eq!(parse_decimal("101", 100), None);
    assert_eq!(parse_decimal("", 100), None);
    assert_eq!(parse_decimal("4x", 100), None);
    assert_eq!(parse_decimal("-1", 100), None);
}

#[test]
fn path_and_query_are_split() {
    let (path, q) = parse_path_query("/api/v1/quotes?tickers=AAPL,MSFT&x&range=1mo&range=5d");
    assert_eq!(path, "/api/v1/quotes");
    assert_eq!(q.pairs.len(), 3);
    assert_eq!(q.get("tickers"), Some("AAPL,MSFT".to_string()));
    // a repeated key keeps its last value
    assert_eq!(q.get("range"), Some("5d".to_string()));
    assert_eq!(q.get("x"), None);
    assert!(q.contains_key("tickers"));
    assert!(!q.contains_key("limit"));
    let (path2, q2) = parse_path_query("/api/v1/health");
    assert_eq!(path2, "/api/v1/health");
    assert!(q2.pairs.is_empty());
    let (_, q3) = parse_path_query("/p?a=b=c");
    assert_eq!(q3.get("a"), Some("b=c".to_string()));
}

#[test]
fn query_parameter_helpers() {
    let (_, q) = parse_path_query("/p?include_greeks=true&flag=yes&limit=25&big=999&list=a,b");
    assert_eq!(q.flag("include_greeks"), Some(true));
    assert_eq!(q.flag("flag"), Some(false));
    assert_eq!(q.flag("missing"), None);
    assert_eq!(q.get_number("limit", 100), Some(25));
    assert_eq!(q.get_number("big", 100), None);
    assert_eq!(q.get_number("list", 100), None);
    assert_eq!(q.get_or("missing", "AAPL"), "AAPL");
    assert_eq!(q.get_or("limit", "AAPL"), "25");
    assert_eq!(q.list_or("list", "AAPL"), vec!["a", "b"]);
    assert_eq!(q.list_or("tickers", "AAPL"), vec!["AAPL"]);
    let empty = QueryParams::new();
    assert!(empty.pairs.is_empty());
}

#[test]
fn request_lines() {
    assert_eq!(
        parse_request_line("GET /api/v1/quote?symbol=IBM HTTP/1.1\r\n"),
        Some(("GET".to_string(), "/api/v1/quote?symbol=IBM".to_string()))
    );
    assert_eq!(parse_request_line("GET\r\n"), None);
    assert_eq!(parse_request_line(""), None);
}

#[test]
fn header_lines() {
    assert!(matches!(classify_header_line("\r\n"), HeaderLine::End));
    assert!(matches!(classify_header_line("Content-Length: 12\r\n"), HeaderLine::ContentLength(12)));
    assert!(matches!(classify_header_line("Content-Length: abc"), HeaderLine::BadContentLength));
    assert!(matches!(classify_header_line("Host: example.com"), HeaderLine::Other));
}

#[test]
fn body_of_a_raw_response() {
    assert_eq!(
        extract_http_body("HTTP/1.1 200 OK\r\nA: b\r\n\r\n{\"x\":1}"),
        Ok("{\"x\":1}".to_string())
    );
    assert_eq!(extract_http_body("HTTP/1.1 200 OK\r\n\r\n"), Ok(String::new()));
    assert_eq!(extract_http_body("no separator"), Err("Malformed HTTP response".to_string()));
}

#[test]
fn responses_and_requests() {
    assert_eq!(
        plain_response(404, "Not Found", "Endpoint not found"),
        "HTTP/1.1 404 Not Found\r\nContent-Length: 18\r\nContent-Type: text/plain\r\n\r\nEndpoint not found"
    );
    assert_eq!(
        json_response(200, "{}", "X: y\r\n"),
        "HTTP/1.1 200 OK\r\nContent-Length: 2\r\nContent-Type: application/json\r\nX: y\r\n\r\n{}"
    );
    assert_eq!(preflight_response("A: b\r\n"), "HTTP/1.1 204 No Content\r\nA: b\r\n\r\n");
    assert_eq!(
        http_get_request("/x", "example.com"),
        "GET /x HTTP/1.1\r\nHost: example.com\r\nUser-Agent: stock-client/1.0\r\nConnection: close\r\n\r\n"
    );
}

#[test]
fn content_length_counts_bytes() {
    let r = plain_response(200, "OK", "é");
    assert!(r.starts_with("HTTP/1.1 200 OK\r\nContent-Length: 2\r\n"));
}
