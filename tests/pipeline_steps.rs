use page_summary::{
    after_document, after_summary, begin, bearer_header, bound, chat_request, classify_url,
    document_text, empty_as_none, first_choice, prompt_pair, render_plan, summary_messages,
    summary_of, summary_prompt, validate_url, ChatResponse, Choice, ExtractError, Message,
    PipelineError, Step, UrlParts, MAX_TOKENS, MODEL, SUMMARY_MAX_TOKENS, SYSTEM_PROMPT,
    USER_PROMPT_HEAD, USER_PROMPT_TAIL,
};

fn reply_of(step: Step) -> String {
    match step {
        Step::Reply(b) => b,
        _ => panic!("expected a reply"),
    }
}

fn choice(content: &str, reason: &str) -> Choice {
    Choice {
        index: 0,
        message: Message { role: "assistant".to_string(), content: content.to_string() },
        finish_reason: reason.to_string(),
    }
}

#[test]
fn valid_absolute_url_is_accepted() {
    let t = validate_url("https://example.com/a").unwrap();
    assert_eq!(t.address, "https://example.com/a");
    assert_eq!(t.host, "example.com");
}

#[test]
fn text_without_scheme_is_rejected() {
    assert!(validate_url("not a url").is_err());
    assert!(validate_url("example.com/a").is_err());
    assert!(validate_url("").is_err());
}

#[test]
fn address_without_host_is_rejected() {
    assert!(validate_url("mailto:someone@example.com").is_err());
    assert!(validate_url("data:text/plain,hello").is_err());
}

#[test]
fn classify_needs_a_non_empty_host() {
    let with_host = UrlParts {
        text: "http://h/".to_string(),
        scheme: "http".to_string(),
        host: Some("h".to_string()),
    };
    assert_eq!(classify_url("http://h", Some(with_host)).unwrap().host, "h");
    let empty_host = UrlParts {
        text: "x://".to_string(),
        scheme: "x".to_string(),
        host: Some(String::new()),
    };
    assert!(classify_url("x://", Some(empty_host)).is_err());
    let no_host = UrlParts { text: "x:y".to_string(), scheme: "x".to_string(), host: None };
    assert!(classify_url("x:y", Some(no_host)).is_err());
    assert!(classify_url("zz", None).is_err());
}

#[test]
fn bound_collapses_whitespace_and_truncates() {
    assert_eq!(bound("  a \t b\n\nc\r\x0Cd  ", 10), "a b c d");
    assert_eq!(bound("a b c d", 2), "a b");
    assert_eq!(bound("a b c d", 0), "");
    assert_eq!(bound("", 5), "");
    assert_eq!(bound(" \n\t ", 5), "");
    assert_eq!(bound("one", 1), "one");
}

#[test]
fn bound_is_idempotent() {
    let t = "x  y\tz w\nv";
    for n in 0..7 {
        let once = bound(t, n);
        assert_eq!(bound(&once, n), once);
    }
}

#[test]
fn bound_keeps_the_first_min_k_n_tokens() {
    let t = " alpha beta\tgamma  delta ";
    let all: Vec<&str> = t.split_ascii_whitespace().collect();
    for n in 0..6 {
        let b = bound(t, n);
        let got: Vec<&str> = b.split_ascii_whitespace().collect();
        let m = if all.len() < n { all.len() } else { n };
        assert_eq!(got.len(), m);
        assert_eq!(&got[..], &all[..m]);
    }
}

#[test]
fn pages_are_joined_in_order() {
    let pages = vec![Some("first page".to_string()), Some("second page".to_string())];
    assert_eq!(document_text(&pages).unwrap(), "first page second page");
    assert_eq!(document_text(&Vec::new()).unwrap(), "");
}

#[test]
fn a_failed_page_fails_the_document() {
    let pages = vec![Some("first".to_string()), None, Some("third".to_string())];
    assert_eq!(document_text(&pages), Err(ExtractError::PageTextFailed));
}

#[test]
fn invalid_url_is_answered_at_once() {
    assert_eq!(reply_of(begin("not a url")), "parse target url failure");
}

#[test]
fn valid_url_goes_to_rendering() {
    match begin("https://example.com/a") {
        Step::Render(t) => assert_eq!(t.address, "https://example.com/a"),
        _ => panic!("expected rendering"),
    }
}

#[test]
fn render_failure_gets_the_text_failure_reply() {
    let r = after_document(Err(PipelineError::Render));
    assert_eq!(reply_of(r), "failed to get text from webpage");
}

#[test]
fn extraction_failures_get_the_text_failure_reply() {
    let r = after_document(Err(PipelineError::Extract(ExtractError::LibraryUnavailable)));
    assert_eq!(reply_of(r), "failed to get text from webpage");
    let r = after_document(Ok(vec![None]));
    assert_eq!(reply_of(r), "failed to get text from webpage");
}

#[test]
fn missing_summary_gets_its_reply() {
    assert_eq!(after_summary(None), "failed to create summary");
    assert_eq!(after_summary(Some("short summary".to_string())), "short summary");
}

#[test]
fn each_failure_has_its_reply() {
    assert_eq!(PipelineError::InvalidUrl.user_message(), "parse target url failure");
    assert_eq!(PipelineError::Render.user_message(), "failed to get text from webpage");
    assert_eq!(
        PipelineError::Extract(ExtractError::DocumentUnreadable).user_message(),
        "failed to get text from webpage"
    );
    assert_eq!(PipelineError::Summarization.user_message(), "failed to create summary");
}

#[test]
fn long_page_text_is_bounded_before_the_request() {
    let sentence = "Company X reported record profits today amid market turmoil.";
    let mut text = String::new();
    for _ in 0..400 {
        text.push_str(sentence);
        text.push(' ');
    }
    let all: Vec<&str> = text.split_ascii_whitespace().collect();
    assert!(all.len() > MAX_TOKENS);
    let expected = all[..MAX_TOKENS].join(" ");
    assert_eq!(bound(&text, MAX_TOKENS), expected);
    let step = after_document(Ok(vec![Some(text.clone())]));
    let msgs = match step {
        Step::Summarize(m) => m,
        _ => panic!("expected a summary request"),
    };
    assert_eq!(msgs.len(), 2);
    assert_eq!(msgs[0].role, "system");
    assert_eq!(msgs[0].content, SYSTEM_PROMPT);
    assert_eq!(msgs[1].role, "user");
    assert_eq!(msgs[1].content, format!("{}{}{}", USER_PROMPT_HEAD, expected, USER_PROMPT_TAIL));
    assert!(!msgs[1].content.contains(text.trim_end()));
}

#[test]
fn two_requests_do_not_share_state() {
    let a = after_document(Ok(vec![Some("alpha one".to_string()), Some("two".to_string())]));
    let b = after_document(Ok(vec![Some("beta".to_string())]));
    let ma = match a {
        Step::Summarize(m) => m,
        _ => panic!("expected a summary request"),
    };
    let mb = match b {
        Step::Summarize(m) => m,
        _ => panic!("expected a summary request"),
    };
    assert_eq!(ma[1].content, summary_prompt("alpha one two"));
    assert_eq!(mb[1].content, summary_prompt("beta"));
}

#[test]
fn summary_messages_embed_the_bounded_text() {
    let m = summary_messages("  some\tpage   text ");
    assert_eq!(m[1].content, format!("{}some page text{}", USER_PROMPT_HEAD, USER_PROMPT_TAIL));
    assert_eq!(SYSTEM_PROMPT, "You're a news reporter AI.");
}

#[test]
fn prompt_pair_puts_system_first() {
    let m = prompt_pair("sys", "usr");
    assert_eq!(m.len(), 2);
    assert_eq!((m[0].role.as_str(), m[0].content.as_str()), ("system", "sys"));
    assert_eq!((m[1].role.as_str(), m[1].content.as_str()), ("user", "usr"));
}

#[test]
fn request_parameters_are_fixed() {
    let r = chat_request(prompt_pair("s", "u"), SUMMARY_MAX_TOKENS);
    assert_eq!(r.model, MODEL);
    assert_eq!(r.messages.len(), 2);
    assert_eq!(r.temperature_tenths, 7);
    assert_eq!(r.top_p, 1);
    assert_eq!(r.n, 1);
    assert!(!r.stream);
    assert_eq!(r.max_tokens, 512);
    assert_eq!(r.presence_penalty, 0);
    assert_eq!(r.frequency_penalty, 0);
    assert_eq!(r.stop, "\n");
}

#[test]
fn bearer_header_prefixes_the_token() {
    assert_eq!(bearer_header("abc"), "Bearer abc");
}

#[test]
fn first_choice_is_taken() {
    let resp = ChatResponse {
        id: "r1".to_string(),
        choices: vec![choice("first", "stop"), choice("second", "length")],
    };
    assert_eq!(first_choice(&resp), Some(("first".to_string(), "stop".to_string())));
    assert_eq!(summary_of(&resp), Some("first".to_string()));
}

#[test]
fn no_choice_gives_no_summary() {
    let resp = ChatResponse { id: "r2".to_string(), choices: Vec::new() };
    assert_eq!(first_choice(&resp), None);
    assert_eq!(summary_of(&resp), None);
}

#[test]
fn render_settings_are_fixed() {
    let p = render_plan();
    assert_eq!((p.viewport_width, p.viewport_height), (820, 1180));
    assert!(!p.landscape && !p.display_header_footer && !p.print_background);
    assert_eq!(p.scale_percent, 50);
    assert_eq!((p.paper_width_tenths, p.paper_height_tenths), (110, 170));
    assert_eq!(p.margin_tenths, 1);
    assert_eq!(p.page_ranges, "1-2");
    assert!(p.ignore_invalid_page_ranges);
    assert!(!p.prefer_css_page_size);
}

#[test]
fn empty_query_value_is_absent() {
    assert_eq!(empty_as_none(None), None);
    assert_eq!(empty_as_none(Some(String::new())), None);
    assert_eq!(empty_as_none(Some("x".to_string())), Some("x".to_string()));
}
