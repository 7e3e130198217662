use cgip::endpoint::get_completions_url;
use cgip::endpoint::get_models_url;

#[test]
fn test_get_completions_url_without_v1() {
    let url = get_completions_url("https://api.openai.com");
    assert_eq!(url, "https://api.openai.com/v1/chat/completions");
}

#[test]
fn test_get_completions_url_with_v1() {
    let url = get_completions_url("https://api.openai.com/v1");
    assert_eq!(url, "https://api.openai.com/v1/chat/completions");
}

#[test]
fn test_get_completions_url_with_trailing_slash() {
    let url = get_completions_url("https://api.openai.com/");
    assert_eq!(url, "https://api.openai.com/v1/chat/completions");
}

#[test]
fn test_get_completions_url_with_v1_and_trailing_slash() {
    let url = get_completions_url("https://api.openai.com/v1/");
    assert_eq!(url, "https://api.openai.com/v1/chat/completions");
}

#[test]
fn test_get_completions_url_gemini_style() {
    let url = get_completions_url(
        "https://generativelanguage.googleapis.com/v1beta/models/gemini-pro:generateContent",
    );
    assert_eq!(url, "https://generativelanguage.googleapis.com/v1beta/models/gemini-pro:generateContent/chat/completions");
}

#[test]
fn test_get_completions_url_with_existing_endpoint() {
    let url = get_completions_url("https://api.example.com/v1/chat/completions");
    assert_eq!(url, "https://api.example.com/v1/chat/completions");
}

#[test]
fn test_get_completions_url_with_v2() {
    let url = get_completions_url("https://api.example.com/v2");
    assert_eq!(url, "https://api.example.com/v2/chat/completions");
}

#[test]
fn test_get_models_url_without_v1() {
    let url = get_models_url("https://api.openai.com");
    assert_eq!(url, "https://api.openai.com/v1/models");
}

#[test]
fn test_get_models_url_with_v1() {
    let url = get_models_url("https://api.openai.com/v1");
    assert_eq!(url, "https://api.openai.com/v1/models");
}

#[test]
fn test_get_models_url_with_trailing_slash() {
    let url = get_models_url("https://api.openai.com/");
    assert_eq!(url, "https://api.openai.com/v1/models");
}

#[test]
fn test_get_models_url_with_v2() {
    let url = get_models_url("https://api.example.com/v2");
    assert_eq!(url, "https://api.example.com/v2/models");
}

#[test]
fn resolving_twice_changes_nothing() {
    let once = get_completions_url("https://api.openai.com");
    let twice = get_completions_url(&once);
    assert_eq!(once, twice);
    let once = get_models_url("http://localhost:8080/v1beta");
    let twice = get_models_url(&once);
    assert_eq!(once, twice);
}

#[test]
fn models_url_already_present_is_identity() {
    let url = get_models_url("https://api.example.com/v1/models");
    assert_eq!(url, "https://api.example.com/v1/models");
}
