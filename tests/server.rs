use std::io::{BufRead, BufReader, Read};

use http_server::error::Error;
use http_server::models::{Request, RequestMethod};
use http_server::parser::{parse_header_line, parse_request_line, Field, RequestParser, Stage, Step};
use http_server::response::{created_response, file_response, handle_get_response, route, Outcome};

fn read_request(input: &[u8]) -> Result<Request, Error> {
    let mut reader = BufReader::new(input);
    let mut parser = RequestParser::new();
    loop {
        match parser.next_step() {
            Step::ReadLine => {
                let mut buf = String::new();
                let n = reader
                    .read_line(&mut buf)
                    .map_err(|_| Error::parse_error("IO Error"))?;
                if n == 0 {
                    parser.on_line(None)?;
                } else {
                    if buf.ends_with('\n') {
                        buf.pop();
                        if buf.ends_with('\r') {
                            buf.pop();
                        }
                    }
                    parser.on_line(Some(&buf))?;
                }
            }
            Step::ReadBody(n) => {
                let mut body = vec![0u8; n];
                reader
                    .read_exact(&mut body)
                    .map_err(|_| Error::parse_error("IO Error"))?;
                parser.on_body(&body)?;
            }
            Step::Finished => return Ok(parser.into_request()),
        }
    }
}

fn respond(input: &[u8]) -> Vec<u8> {
    let request = read_request(input).expect("request parses");
    match route(&request).expect("route succeeds") {
        Outcome::Reply(bytes) => bytes,
        other => panic!("unexpected outcome {:?}", other),
    }
}

fn gunzip(data: &[u8]) -> Vec<u8> {
    let mut out = Vec::new();
    flate2::read::GzDecoder::new(data).read_to_end(&mut out).expect("valid gzip");
    out
}

fn split_head(response: &[u8]) -> (String, Vec<u8>) {
    let pos = response.windows(4).position(|w| w == b"\r\n\r\n").expect("head ends");
    (
        String::from_utf8(response[..pos + 4].to_vec()).unwrap(),
        response[pos + 4..].to_vec(),
    )
}

#[test]
fn echo_without_encoding_sends_text() {
    let response = respond(b"GET /echo/abc HTTP/1.1\r\nHost: localhost\r\n\r\n");
    assert_eq!(
        response,
        b"HTTP/1.1 200 OK\r\nContent-Type: text/plain\r\nContent-Length: 3\r\n\r\nabc".to_vec()
    );
}

#[test]
fn echo_long_text_has_two_digit_length() {
    let response = respond(b"GET /echo/hello-world! HTTP/1.1\r\n\r\n");
    assert_eq!(
        response,
        b"HTTP/1.1 200 OK\r\nContent-Type: text/plain\r\nContent-Length: 12\r\n\r\nhello-world!"
            .to_vec()
    );
}

#[test]
fn echo_empty_text() {
    let response = respond(b"GET /echo/ HTTP/1.1\r\n\r\n");
    assert_eq!(
        response,
        b"HTTP/1.1 200 OK\r\nContent-Type: text/plain\r\nContent-Length: 0\r\n\r\n".to_vec()
    );
}

#[test]
fn echo_with_gzip_sends_compressed_text() {
    let response =
        respond(b"GET /echo/abc HTTP/1.1\r\nAccept-Encoding: deflate, gzip, br\r\n\r\n");
    let (head, body) = split_head(&response);
    assert!(head.starts_with("HTTP/1.1 200 OK\r\n"));
    assert!(head.contains("\r\nContent-Encoding: gzip\r\n"));
    assert!(head.contains(&format!("\r\nContent-Length: {}\r\n", body.len())));
    assert_ne!(body, b"abc".to_vec());
    assert_eq!(gunzip(&body), b"abc".to_vec());
}

#[test]
fn echo_without_gzip_listed_sends_no_body() {
    let response = respond(b"GET /echo/abc HTTP/1.1\r\nAccept-Encoding: identity\r\n\r\n");
    assert_eq!(
        response,
        b"HTTP/1.1 200 OK\r\nContent-Type: text/plain\r\n\r\n".to_vec()
    );
    assert!(!String::from_utf8(response).unwrap().contains("Content-Length"));
}

#[test]
fn user_agent_is_echoed() {
    let response = respond(b"GET /user-agent HTTP/1.1\r\nUser-Agent: foo/1.0\r\n\r\n");
    assert_eq!(
        response,
        b"HTTP/1.1 200 OK\r\nContent-Type: text/plain\r\nContent-Length: 7\r\n\r\nfoo/1.0".to_vec()
    );
}

#[test]
fn user_agent_absent_gives_empty_success() {
    let response = respond(b"GET /user-agent HTTP/1.1\r\n\r\n");
    assert_eq!(response, b"HTTP/1.1 200 OK\r\n\r\n".to_vec());
}

#[test]
fn root_gives_empty_success() {
    let response = respond(b"GET / HTTP/1.1\r\n\r\n");
    assert_eq!(response, b"HTTP/1.1 200 OK\r\n\r\n".to_vec());
}

#[test]
fn unknown_path_is_not_found() {
    let response = respond(b"GET /unknown/path HTTP/1.1\r\n\r\n");
    assert_eq!(response, b"HTTP/1.1 404 Not Found\r\n\r\n".to_vec());
}

#[test]
fn post_to_unknown_path_is_not_found() {
    let response = respond(b"POST /other HTTP/1.1\r\n\r\n");
    assert_eq!(response, b"HTTP/1.1 404 Not Found\r\n\r\n".to_vec());
}

#[test]
fn post_then_get_file() {
    let request =
        read_request(b"POST /files/x.txt HTTP/1.1\r\nContent-Length: 5\r\n\r\nhello").unwrap();
    assert_eq!(request.body.as_deref(), Some("hello"));
    match route(&request).unwrap() {
        Outcome::WriteFile(name, body) => {
            assert_eq!(name, "x.txt");
            assert_eq!(body, "hello");
        }
        other => panic!("unexpected outcome {:?}", other),
    }
    assert_eq!(created_response(), b"HTTP/1.1 201 Created\r\n\r\n".to_vec());
    let request = read_request(b"GET /files/x.txt HTTP/1.1\r\n\r\n").unwrap();
    match route(&request).unwrap() {
        Outcome::ReadFile(name) => assert_eq!(name, "x.txt"),
        other => panic!("unexpected outcome {:?}", other),
    }
    assert_eq!(
        file_response(Some(b"hello")),
        b"HTTP/1.1 200 OK\r\nContent-Type: application/octet-stream\r\nContent-Length: 5\r\n\r\nhello"
            .to_vec()
    );
}

#[test]
fn missing_file_is_not_found() {
    let request = read_request(b"GET /files/missing.txt HTTP/1.1\r\n\r\n").unwrap();
    match handle_get_response(&request).unwrap() {
        Outcome::ReadFile(name) => assert_eq!(name, "missing.txt"),
        other => panic!("unexpected outcome {:?}", other),
    }
    assert_eq!(file_response(None), b"HTTP/1.1 404 Not Found\r\n\r\n".to_vec());
}

#[test]
fn same_echo_twice_is_identical() {
    let input = b"GET /echo/abc HTTP/1.1\r\n\r\n";
    assert_eq!(respond(input), respond(input));
    let gz = b"GET /echo/abc HTTP/1.1\r\nAccept-Encoding: gzip\r\n\r\n";
    assert_eq!(respond(gz), respond(gz));
}

#[test]
fn zero_length_reads_no_body() {
    let request =
        read_request(b"POST /files/a HTTP/1.1\r\nContent-Length: 0\r\n\r\nmore bytes").unwrap();
    assert_eq!(request.headers.content_length, Some(0));
    assert!(request.body.is_none());
}

#[test]
fn body_reads_exactly_the_announced_length() {
    let request =
        read_request(b"POST /files/a HTTP/1.1\r\nContent-Length: 3\r\n\r\nabcdef").unwrap();
    assert_eq!(request.body.as_deref(), Some("abc"));
}

#[test]
fn short_body_fails() {
    assert!(read_request(b"POST /files/a HTTP/1.1\r\nContent-Length: 9\r\n\r\nabc").is_err());
}

#[test]
fn invalid_utf8_body_fails() {
    let mut parser = RequestParser::new();
    parser.on_line(Some("POST /files/a HTTP/1.1")).unwrap();
    parser.on_line(Some("Content-Length: 2")).unwrap();
    parser.on_line(Some("")).unwrap();
    assert_eq!(parser.next_step(), Step::ReadBody(2));
    assert!(parser.on_body(&[0xff, 0xfe]).is_err());
}

#[test]
fn empty_input_gives_fresh_request() {
    let request = read_request(b"").unwrap();
    assert_eq!(request.request_line.http_method, RequestMethod::Get);
    assert_eq!(request.request_line.target, "");
    assert_eq!(request.request_line.http_version, "");
    assert!(request.headers.host.is_none());
    assert!(request.body.is_none());
}

#[test]
fn request_line_words() {
    let line = parse_request_line("POST  /files/a\tHTTP/1.1 extra").unwrap();
    assert_eq!(line.http_method, RequestMethod::Post);
    assert_eq!(line.target, "/files/a");
    assert_eq!(line.http_version, "HTTP/1.1");
}

#[test]
fn request_line_errors() {
    assert!(parse_request_line("").is_err());
    assert!(parse_request_line("PUT / HTTP/1.1").is_err());
    assert!(parse_request_line("get / HTTP/1.1").is_err());
    assert!(parse_request_line("GET").is_err());
    assert!(parse_request_line("GET /").is_err());
    assert!(parse_request_line("GET / ").is_err());
}

#[test]
fn header_lines() {
    match parse_header_line("Host: example.com").unwrap() {
        Field::Host(h) => assert_eq!(h, "example.com"),
        other => panic!("unexpected {:?}", other),
    }
    match parse_header_line("Accept: */*").unwrap() {
        Field::Accept(h) => assert_eq!(h, "*/*"),
        other => panic!("unexpected {:?}", other),
    }
    match parse_header_line("Accept-Encoding: gzip, , br,x").unwrap() {
        Field::AcceptEncoding(v) => assert_eq!(v, vec!["gzip", "", "br,x"]),
        other => panic!("unexpected {:?}", other),
    }
    match parse_header_line("Content-Length:  +42 ").unwrap() {
        Field::ContentLength(n) => assert_eq!(n, 42),
        other => panic!("unexpected {:?}", other),
    }
    assert!(matches!(parse_header_line("X-Other: 1").unwrap(), Field::Ignored));
    assert!(matches!(parse_header_line("Host:nospace").unwrap(), Field::Ignored));
    assert!(matches!(parse_header_line("host: lower").unwrap(), Field::Ignored));
}

#[test]
fn content_length_errors() {
    assert!(parse_header_line("Content-Length: abc").is_err());
    assert!(parse_header_line("Content-Length: ").is_err());
    assert!(parse_header_line("Content-Length: -1").is_err());
    assert!(parse_header_line("Content-Length: +").is_err());
    assert!(parse_header_line("Content-Length: 99999999999999999999999").is_err());
    match parse_header_line("Content-Length: 18446744073709551615").unwrap() {
        Field::ContentLength(n) => assert_eq!(n as u64, 18446744073709551615u64),
        other => panic!("unexpected {:?}", other),
    }
}

#[test]
fn headers_end_at_stream_end() {
    let request = read_request(b"GET /echo/x HTTP/1.1\r\nUser-Agent: a b").unwrap();
    assert_eq!(request.headers.user_agent.as_deref(), Some("a b"));
}

#[test]
fn parser_stages() {
    let mut parser = RequestParser::new();
    assert_eq!(parser.stage, Stage::RequestLine);
    parser.on_line(Some("GET / HTTP/1.1")).unwrap();
    assert_eq!(parser.stage, Stage::Headers);
    parser.on_line(Some("Content-Length: 0")).unwrap();
    parser.on_line(Some("")).unwrap();
    assert_eq!(parser.stage, Stage::Done);
    assert_eq!(parser.next_step(), Step::Finished);
}

#[test]
fn error_text() {
    let e = Error::parse_error("bad");
    assert_eq!(e.describe(), "Parse Error: bad");
}

#[test]
fn method_from_str() {
    assert_eq!("GET".parse::<RequestMethod>(), Ok(RequestMethod::Get));
    assert_eq!("POST".parse::<RequestMethod>(), Ok(RequestMethod::Post));
    assert!("DELETE".parse::<RequestMethod>().is_err());
}

#[test]
fn fresh_request() {
    let request = Request::new();
    assert_eq!(request.request_line.http_method, RequestMethod::Get);
    assert!(request.headers.content_length.is_none());
    assert!(request.headers.accept_encoding.is_none());
}
