use ahc_vdsl::{
    BarGraphItem, ItemBounds, Scalar, Vis2DPlane, VisBarGraph, VisCanvas, VisFrame, VisGrid,
    VisItem, VisTextArea, BLUE, GREEN, RED,
};

fn num(x: f64) -> Scalar {
    Scalar::new(x.to_bits(), x.to_string())
}

#[test]
fn test_visframe_new() {
    let output = VisFrame::new()
        .set_score("12345".to_string())
        .add_textarea(VisTextArea::new("Info".to_string(), "Debug info".to_string()))
        .to_vis_string("test");
    assert!(output.contains("$v(test) SCORE 12345"));
    assert!(output.contains("$v(test) TEXTAREA Info 200 #000000 #ffffff Debug info"));
    assert!(output.contains("$v(test) COMMIT"));
}

#[test]
fn ahc_vdsl_tests_test_visframe_with_grid() {
    let grid = VisGrid::new(3, 3, None);
    let output = VisFrame::new()
        .add_grid(grid)
        .set_score("12345".to_string())
        .add_textarea(VisTextArea::new("Title".to_string(), "Debug info".to_string()))
        .to_vis_string("test");
    assert!(output.contains("$v(test) GRID 3 3"));
    assert!(output.contains("$v(test) SCORE 12345"));
    assert!(output.contains("$v(test) TEXTAREA Title 200 #000000 #ffffff Debug info"));
    assert!(output.contains("$v(test) COMMIT"));
}

#[test]
fn test_textarea_basic() {
    let textarea = VisTextArea::new("Info".to_string(), "Some debug information".to_string());
    let output = VisFrame::new().add_textarea(textarea).to_vis_string("test");
    assert!(output.contains("$v(test) TEXTAREA Info 200 #000000 #ffffff Some debug information"));
}

#[test]
fn test_textarea_custom() {
    let textarea = VisTextArea::new("CustomInfo".to_string(), "Custom message".to_string())
        .height(300)
        .text_color("#ff0000".to_string())
        .fill_color("#ffff00".to_string());
    let output = VisFrame::new().add_textarea(textarea).to_vis_string("test");
    assert!(output.contains("$v(test) TEXTAREA CustomInfo 300 #ff0000 #ffff00 Custom message"));
}

#[test]
fn test_textarea_empty_text() {
    let textarea = VisTextArea::new("EmptyInfo".to_string(), "".to_string());
    let output = VisFrame::new().add_textarea(textarea).to_vis_string("test");
    assert!(output.contains("$v(test) TEXTAREA EmptyInfo 200 #000000 #ffffff \"\""));
}

#[test]
fn ahc_vdsl_tests_test_visframe_with_2dplane() {
    let output = VisFrame::new()
        .add_2d_plane(
            Vis2DPlane::new(num(100.0), num(100.0), None).add_circle(
                RED(),
                BLUE(),
                num(50.0),
                num(50.0),
                num(10.0),
            ),
        )
        .enable_debug()
        .to_vis_string("test");
    assert!(output.contains("$v(test) 2D_PLANE 100 100"));
    assert!(output.contains("$v(test) DEBUG"));
    assert!(output.contains("$v(test) COMMIT"));
}

#[test]
fn test_visframe_with_canvas() {
    let grid1 = VisGrid::new(
        10,
        10,
        Some(ItemBounds::new(num(0.0), num(0.0), num(400.0), num(400.0))),
    );
    let grid2 = VisGrid::new(
        5,
        5,
        Some(ItemBounds::new(num(500.0), num(0.0), num(900.0), num(400.0))),
    );

    let output = VisFrame::new()
        .set_canvas(VisCanvas::new(num(800.0), num(1000.0)))
        .add_grid(grid1)
        .add_grid(grid2)
        .set_score("999".to_string())
        .to_vis_string("test");
    assert!(output.contains("$v(test) CANVAS 800 1000"));
    assert!(output.contains("$v(test) GRID(0, 0, 400, 400) 10 10"));
    assert!(output.contains("$v(test) GRID(500, 0, 900, 400) 5 5"));
    assert!(output.contains("$v(test) SCORE 999"));
    assert!(output.contains("$v(test) COMMIT"));
}

#[test]
fn test_bar_graph_basic() {
    let output = VisBarGraph::new("Stats".to_string(), BLUE(), num(0.0), num(100.0))
        .add_item("A".to_string(), num(50.0))
        .add_item("B".to_string(), num(75.0))
        .to_vis_string("test");
    assert!(output.contains("$v(test) BAR_GRAPH Stats #0000FF 0 100"));
    assert!(output.contains("2 A 50 B 75"));
}

#[test]
fn test_bar_graph_title_with_space() {
    let output = VisBarGraph::new("My Stats".to_string(), BLUE(), num(0.0), num(100.0))
        .add_item("A".to_string(), num(50.0))
        .to_vis_string("test");
    assert!(output.contains("$v(test) BAR_GRAPH \"My Stats\" #0000FF 0 100"));
}

#[test]
fn test_bar_graph_empty_title() {
    let output = VisBarGraph::new("".to_string(), RED(), num(0.0), num(50.0))
        .add_item("X".to_string(), num(25.0))
        .to_vis_string("test");
    assert!(output.contains("$v(test) BAR_GRAPH \"\" #FF0000 0 50"));
}

#[test]
fn test_bar_graph_add_items() {
    let items = vec![
        BarGraphItem::new("X".to_string(), num(-5.0)),
        BarGraphItem::new("Y".to_string(), num(0.0)),
        BarGraphItem::new("Z".to_string(), num(7.5)),
    ];
    let output = VisBarGraph::new("Values".to_string(), RED(), num(-10.0), num(10.0))
        .add_items(items)
        .to_vis_string("test");
    assert!(output.contains("$v(test) BAR_GRAPH Values #FF0000 -10 10"));
    assert!(output.contains("3 X -5 Y 0 Z 7.5"));
}

#[test]
fn test_frame_add_bar_graph() {
    let output = VisFrame::new()
        .add_bar_graph(
            VisBarGraph::new("Performance".to_string(), GREEN(), num(0.0), num(200.0))
                .add_item("Item1".to_string(), num(100.0))
                .add_item("Item2".to_string(), num(150.0)),
        )
        .set_score("12345".to_string())
        .to_vis_string("main");
    assert!(output.contains("$v(main) BAR_GRAPH Performance #00FF00 0 200"));
    assert!(output.contains("2 Item1 100 Item2 150"));
    assert!(output.contains("$v(main) SCORE 12345"));
    assert!(output.contains("$v(main) COMMIT"));
}

#[test]
fn test_bar_graph_item_new() {
    let item = BarGraphItem::new("TestLabel".to_string(), num(42.5));
    assert_eq!(item.label, "TestLabel");
    assert_eq!(f64::from_bits(item.value.bits), 42.5);
    assert_eq!(item.value.text, "42.5");
}

#[test]
fn empty_frame_is_the_commit_line() {
    assert_eq!(VisFrame::new().to_vis_string("m"), "$v(m) COMMIT\n");
    assert_eq!(VisFrame::default().to_vis_string(""), "$v() COMMIT\n");
}

#[test]
fn frame_without_score_has_no_score_line() {
    let output = VisFrame::new()
        .set_score("5".to_string())
        .set_score(String::new())
        .enable_debug()
        .to_vis_string("m");
    assert_eq!(output, "$v(m) DEBUG\n$v(m) COMMIT\n");
}

#[test]
fn frame_parts_come_in_their_order() {
    let output = VisFrame::new()
        .enable_debug()
        .add_bar_graph(
            VisBarGraph::new("t".to_string(), RED(), num(0.0), num(1.0)).add_item("a".to_string(), num(0.5)),
        )
        .add_textarea(VisTextArea::new("n".to_string(), String::new()).height(7))
        .set_score("42".to_string())
        .add_item(VisItem::Plane(Vis2DPlane::new(num(2.0), num(3.0), None)))
        .add_grid(VisGrid::new(1, 1, None))
        .set_canvas(VisCanvas::new(num(8.0), num(9.0)))
        .to_vis_string("main");
    let expected = "$v(main) CANVAS 8 9\n\
$v(main) 2D_PLANE 2 3\n\
$v(main) GRID 1 1 #000000 #000000 #FFFFFF\nCELL_COLORS_POS\n0\nLINES\n0\n\
$v(main) SCORE 42\n\
$v(main) TEXTAREA n 7 #000000 #ffffff \"\"\n\
$v(main) BAR_GRAPH t #FF0000 0 1\n1 a 0.5\n\
$v(main) DEBUG\n\
$v(main) COMMIT\n";
    assert_eq!(output, expected);
}

#[test]
fn debug_can_be_switched_off_again() {
    let output = VisFrame::new().enable_debug().disable_debug().to_vis_string("m");
    assert_eq!(output, "$v(m) COMMIT\n");
}

#[test]
fn every_frame_ends_with_one_commit_line() {
    let output = VisFrame::new()
        .set_score("1".to_string())
        .add_grid(VisGrid::new(2, 2, None))
        .to_vis_string("x");
    assert!(output.ends_with("$v(x) COMMIT\n"));
    assert_eq!(output.matches("COMMIT").count(), 1);
    assert_eq!(output.matches("$v(x) SCORE").count(), 1);
}

#[test]
fn default_canvas_is_800_by_800() {
    let canvas = VisCanvas::default();
    assert_eq!(canvas.to_vis_string("m"), "$v(m) CANVAS 800 800\n");
    assert_eq!(canvas.h.bits, 800.0f64.to_bits());
    assert_eq!(canvas.w.bits, 800.0f64.to_bits());
}

#[test]
fn bar_graph_without_bars() {
    let output = VisBarGraph::new("a b".to_string(), BLUE(), num(-1.0), num(1.0)).to_vis_string("m");
    assert_eq!(output, "$v(m) BAR_GRAPH \"a b\" #0000FF -1 1\n0\n");
}

#[test]
fn item_writes_what_it_holds() {
    let grid = VisItem::Grid(VisGrid::new(1, 2, None));
    assert_eq!(grid.to_vis_string("m"), VisGrid::new(1, 2, None).to_vis_string("m"));
    let plane = VisItem::Plane(Vis2DPlane::new(num(1.0), num(2.0), None));
    assert_eq!(plane.to_vis_string("m"), "$v(m) 2D_PLANE 1 2\n");
}

#[test]
fn tests_test_visframe_with_2dplane() {
    let plane = Vis2DPlane::new(num(100.0), num(100.0), None).add_circle(
        RED(),
        BLUE(),
        num(50.0),
        num(50.0),
        num(10.0),
    );
    let frame = VisFrame::new().add_2d_plane(plane).set_score("".to_string()).enable_debug();

    let output = frame.to_vis_string("test");
    assert!(output.contains("$v(test) 2D_PLANE 100 100"));
    assert!(output.contains("$v(test) DEBUG"));
    assert!(output.contains("$v(test) COMMIT"));
}
