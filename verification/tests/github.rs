//! Picking the reproduction snippet out of an issue body.

use icemelter::github::extract_reproduction;

fn extract(body: &str) -> String {
    String::from_utf8(extract_reproduction(body.as_bytes())).unwrap()
}

#[test]
fn takes_block_under_code_heading() {
    let body = "intro\n### Code\n\n```rust\nfn main() {}\n```\ntrailing text\n";
    assert_eq!(extract(body), "fn main() {}");
}

#[test]
fn multi_line_block_is_joined_with_line_feeds() {
    let body = "### Code\n```rust\nfn a() {}\nfn b() {}\n```\n";
    assert_eq!(extract(body), "fn a() {}\nfn b() {}");
}

#[test]
fn no_code_heading_means_no_snippet() {
    let body = "### Steps\n```rust\nfn main() {}\n```\n";
    assert_eq!(extract(body), "");
}

#[test]
fn heading_after_code_section_closes_it() {
    let body = "### Code\n### Version\n```rust\nfn main() {}\n```\n";
    assert_eq!(extract(body), "");
}

#[test]
fn first_block_wins() {
    let body = "### Code\n```rust\nfirst\n```\n```rust\nsecond\n```\n";
    assert_eq!(extract(body), "first");
}

#[test]
fn capitalized_fence_is_accepted() {
    let body = "### Code\n```Rust\nfn main() {}\n```\n";
    assert_eq!(extract(body), "fn main() {}");
}

#[test]
fn plain_fence_does_not_open_a_block() {
    let body = "### Code\n```\nnot rust\n```\n";
    assert_eq!(extract(body), "");
}

#[test]
fn carriage_returns_are_stripped() {
    let body = "### Code\r\n```rust\r\nfn main() {}\r\n```\r\n";
    assert_eq!(extract(body), "fn main() {}");
}

#[test]
fn unterminated_block_collects_to_the_end() {
    let body = "### Code\n```rust\nfn main() {}";
    assert_eq!(extract(body), "fn main() {}");
}
