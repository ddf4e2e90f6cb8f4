use folco::medium::SvgCanvas;

const BASE: &str =
    r##"<svg xmlns="http://www.w3.org/2000/svg" viewBox="0 0 16 16"><rect width="16" height="16"/></svg>"##;

#[test]
fn passthrough_returns_base_unchanged() {
    let canvas = SvgCanvas::new(BASE);
    assert_eq!(canvas.into_svg(), BASE);
}

#[test]
fn overlays_inject_before_closing_tag() {
    let mut canvas = SvgCanvas::new(BASE);
    canvas.push_overlay(r##"<circle cx="8" cy="8" r="2"/>"##);
    let out = canvas.into_svg();

    assert!(out.ends_with("</svg>"));
    assert!(out.contains(r##"<circle cx="8" cy="8" r="2"/></svg>"##));
    let rect_idx = out.find("<rect").unwrap();
    let circle_idx = out.find("<circle").unwrap();
    assert!(rect_idx < circle_idx);
}

#[test]
fn overlays_preserve_insertion_order() {
    let mut canvas = SvgCanvas::new(BASE);
    canvas.push_overlay("<first/>");
    canvas.push_overlay("<second/>");
    let out = canvas.into_svg();
    assert!(out.find("<first/>").unwrap() < out.find("<second/>").unwrap());
}

#[test]
fn missing_closing_tag_appends_fragments() {
    let mut canvas = SvgCanvas::new("<svg>broken");
    canvas.push_overlay("<extra/>");
    assert_eq!(canvas.into_svg(), "<svg>broken<extra/>");
}

#[test]
fn fragments_go_before_the_last_closing_tag() {
    let mut canvas = SvgCanvas::new("<svg><svg></svg></svg>");
    canvas.push_overlay("<x/>");
    assert_eq!(canvas.base(), "<svg><svg></svg></svg>");
    assert_eq!(canvas.into_svg(), "<svg><svg></svg><x/></svg>");
}
