use jereko::hosts::render_stub_frame;

#[test]
fn stub_frame_compiles() {
    let out = render_stub_frame("jereko");
    assert!(!out.is_empty());
}
