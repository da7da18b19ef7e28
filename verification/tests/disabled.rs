use ahc_vdsl::disabled::{
    BarGraphItem, Color, ItemBounds, Scalar, Vis2DPlane, VisBarGraph, VisCanvas, VisFrame,
    VisGrid, VisRoot, VisTextArea, BLACK, BLUE, CYAN, GRAY, GREEN, MAGENTA, RED, WHITE, YELLOW,
};

fn num(x: f64) -> Scalar {
    Scalar::new(x.to_bits(), x.to_string())
}

#[test]
fn test_visgrid_is_zero_sized() {
    assert_eq!(std::mem::size_of::<VisGrid>(), 0);
}

#[test]
fn test_visframe_is_zero_sized() {
    assert_eq!(std::mem::size_of::<VisFrame>(), 0);
}

#[test]
fn test_vis2dplane_is_zero_sized() {
    assert_eq!(std::mem::size_of::<Vis2DPlane>(), 0);
}

#[test]
fn test_visroot_is_zero_sized() {
    assert_eq!(std::mem::size_of::<VisRoot>(), 0);
}

#[test]
fn test_color_is_zero_sized() {
    assert_eq!(std::mem::size_of::<Color>(), 0);
}

#[test]
fn test_visgrid_operations_compile() {
    let output = VisGrid::new(10, 10, None)
        .update_cell_color((5, 5), RED())
        .update_text((5, 5), "test".to_string())
        .add_line(vec![(0, 0), (1, 1), (2, 2)], BLUE())
        .remove_wall_vertical((1, 0))
        .remove_wall_horizontal((0, 1))
        .add_wall_vertical((2, 0))
        .add_wall_horizontal((0, 2))
        .to_vis_string("test");
    assert!(output.is_empty());
}

#[test]
fn test_visgrid_with_bounds_compiles() {
    let bounds = ItemBounds::new(num(0.0), num(0.0), num(400.0), num(400.0));
    let grid = VisGrid::new(10, 10, Some(bounds));
    let output = grid.to_vis_string("test");
    assert!(output.is_empty());
}

#[test]
fn test_vis2dplane_operations_compile() {
    let output = Vis2DPlane::new(num(100.0), num(100.0), None)
        .add_circle(RED(), BLUE(), num(50.0), num(50.0), num(10.0))
        .add_line(GREEN(), num(2.0), num(0.0), num(0.0), num(100.0), num(100.0))
        .add_polygon(
            RED(),
            YELLOW(),
            vec![
                (num(10.0), num(10.0)),
                (num(90.0), num(10.0)),
                (num(90.0), num(90.0)),
                (num(10.0), num(90.0)),
            ],
        )
        .to_vis_string("test");
    assert!(output.is_empty());
}

#[test]
fn test_vis2dplane_with_bounds_compiles() {
    let bounds = ItemBounds::new(num(0.0), num(0.0), num(400.0), num(400.0));
    let plane = Vis2DPlane::new(num(100.0), num(100.0), Some(bounds));
    let output = plane.to_vis_string("test");
    assert!(output.is_empty());
}

#[test]
fn test_visframe_operations_compile() {
    let grid = VisGrid::new(3, 3, None);
    let output = VisFrame::new()
        .add_grid(grid)
        .add_textarea(VisTextArea::new("Info".to_string(), "Debug info".to_string()))
        .enable_debug()
        .disable_debug()
        .set_score("999".to_string())
        .to_vis_string("test");
    assert!(output.is_empty());
}

#[test]
fn test_visframe_with_2dplane_compiles() {
    let plane = Vis2DPlane::new(num(100.0), num(100.0), None);
    let output = VisFrame::new().add_2d_plane(plane).enable_debug().to_vis_string("test");
    assert!(output.is_empty());
}

#[test]
fn test_visframe_with_canvas_compiles() {
    let grid = VisGrid::new(
        10,
        10,
        Some(ItemBounds::new(num(0.0), num(0.0), num(400.0), num(400.0))),
    );
    let output = VisFrame::new()
        .set_canvas(VisCanvas::new(num(800.0), num(1000.0)))
        .add_grid(grid)
        .to_vis_string("test");
    assert!(output.is_empty());
}

#[test]
fn test_visroot_operations_compile() {
    let mut root = VisRoot::new();

    let grid = VisGrid::new(2, 2, None);
    let frame = VisFrame::new().add_grid(grid).set_score("100".to_string());
    root.add_frame("main", frame);

    let frame2 = VisFrame::new().add_grid(VisGrid::new(1, 1, None)).set_score("200".to_string());

    let frame3 = VisFrame::new().add_grid(VisGrid::new(1, 1, None)).set_score("300".to_string());

    root.add_frames("main", vec![frame2, frame3]);

    assert!(root.get_frames("main").is_none());

    assert!(root.render_all().is_empty());
}

#[test]
fn test_color_constants_exist() {
    let _ = WHITE();
    let _ = BLACK();
    let _ = GRAY();
    let _ = RED();
    let _ = BLUE();
    let _ = GREEN();
    let _ = YELLOW();
    let _ = CYAN();
    let _ = MAGENTA();
}

#[test]
fn test_color_display_is_empty() {
    assert_eq!(RED().to_hex_string(), "");
    assert_eq!(Color::new(128, 128, 128).to_hex_string(), "");
}

#[test]
fn test_bar_graph_operations_compile() {
    let output = VisBarGraph::new("Test".to_string(), RED(), num(0.0), num(100.0))
        .add_item("A".to_string(), num(50.0))
        .add_items(vec![BarGraphItem::new("B".to_string(), num(75.0))])
        .to_vis_string("test");
    assert!(output.is_empty());
}

#[test]
fn test_frame_add_bar_graph_compiles() {
    let bar_graph = VisBarGraph::new("Test".to_string(), GREEN(), num(0.0), num(100.0));
    let output = VisFrame::new().add_bar_graph(bar_graph).to_vis_string("test");
    assert!(output.is_empty());
}

#[test]
fn switched_off_color_reads_any_text() {
    let color = Color::from(&"#FF8800".to_string());
    assert_eq!(color.to_hex_string(), "");
    assert!(color == Color::new(1, 2, 3));
}

#[test]
fn switched_off_root_takes_any_path() {
    let mut root = VisRoot::new_with_file("out.txt");
    root.add_frame("m", VisFrame::new_grid(VisGrid::with_bounds(1, 1, ItemBounds::new(num(0.0), num(0.0), num(1.0), num(1.0))), 5))
        .add_frame("m", VisFrame::new_2d_plane(Vis2DPlane::with_bounds(num(1.0), num(1.0), ItemBounds::new(num(0.0), num(0.0), num(1.0), num(1.0))), "7"));
    assert!(root.get_frames("m").is_none());
    assert!(VisGrid::from_cells(&[vec![1, 2], vec![3, 4]]).to_vis_string("m").is_empty());
}
