use libui::str_tools::from_toolkit_string;
use libui::str_tools::insert_dual_endings;
use libui::str_tools::strip_dual_endings;
use libui::str_tools::to_toolkit_string;
use libui::str_tools::LineEnding;

#[test]
fn strip_dual_endings_to_single() {
    assert_eq!(
        strip_dual_endings("Line 1\r\nLine 2\r\n"),
        "Line 1\nLine 2\n"
    );
}

#[test]
fn insert_dual_endings_basic() {
    assert_eq!(
        insert_dual_endings("Line 1\nLine 2\n"),
        "Line 1\r\nLine 2\r\n"
    );
}

#[test]
fn insert_dual_endings_nodupe() {
    assert_eq!(
        insert_dual_endings("Line 1\r\nLine 2\r\n"),
        "Line 1\r\nLine 2\r\n"
    );
}

#[test]
fn test_toolkit_roundtripping() {
    let initial_string = "Here is some test data.\n\nMultiline!\n";
    let toolkit_string = to_toolkit_string(initial_string, LineEnding::CrLf);
    let roundtripped_string = from_toolkit_string(toolkit_string.as_str(), LineEnding::CrLf);
    assert_eq!(initial_string, &roundtripped_string);
}

#[test]
fn roundtrip_under_lf_convention() {
    let initial = "plain\ntext\nwith a stray \r carriage return";
    let out = to_toolkit_string(initial, LineEnding::Lf);
    assert_eq!(initial, &out);
    let back = from_toolkit_string(out.as_str(), LineEnding::Lf);
    assert_eq!(initial, &back);
}

#[test]
fn roundtrip_multibyte_unicode() {
    let initial = "héllo wörld\nснег и лёд\n日本語のテキスト\n";
    let toolkit = to_toolkit_string(initial, LineEnding::CrLf);
    assert_eq!(toolkit, "héllo wörld\r\nснег и лёд\r\n日本語のテキスト\r\n");
    let back = from_toolkit_string(toolkit.as_str(), LineEnding::CrLf);
    assert_eq!(initial, &back);
}

#[test]
fn roundtrip_empty_string() {
    let toolkit = to_toolkit_string("", LineEnding::CrLf);
    assert_eq!(toolkit, "");
    assert_eq!(from_toolkit_string("", LineEnding::CrLf), "");
}

#[test]
fn strip_leaves_lone_endings_alone() {
    assert_eq!(strip_dual_endings("a\rb\nc"), "a\rb\nc");
    assert_eq!(strip_dual_endings("\r\n"), "\n");
    assert_eq!(strip_dual_endings("\r\r\n"), "\r\n");
}

#[test]
fn insert_widens_every_bare_newline() {
    assert_eq!(insert_dual_endings("\n\n"), "\r\n\r\n");
    assert_eq!(insert_dual_endings("a\rb"), "a\rb");
    assert_eq!(insert_dual_endings(""), "");
}
