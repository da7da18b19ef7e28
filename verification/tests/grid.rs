use ahc_vdsl::{ItemBounds, Scalar, VisGrid, BLUE, CYAN, GREEN, RED, YELLOW};

fn num(x: f64) -> Scalar {
    Scalar::new(x.to_bits(), x.to_string())
}

#[test]
fn ahc_vdsl_tests_test_visgrid_new() {
    let grid = VisGrid::new(3, 4, None);
    let output = grid.to_vis_string("test");

    assert!(output.contains("$v(test) GRID 3 4"));
    assert!(output.contains("CELL_COLORS_POS"));
    assert!(!output.contains("CELL_TEXT"));
    assert!(output.contains("LINES"));
}

#[test]
fn test_visgrid_with_bounds() {
    let bounds = ItemBounds::new(num(0.0), num(0.0), num(400.0), num(400.0));
    let grid = VisGrid::new(3, 4, Some(bounds));
    let output = grid.to_vis_string("test");

    assert!(output.contains("$v(test) GRID(0, 0, 400, 400) 3 4"));
}

#[test]
fn ahc_vdsl_tests_test_visgrid_update_cell_color() {
    let output = VisGrid::new(3, 3, None)
        .update_cell_color((1, 1), RED())
        .to_vis_string("test");
    assert!(output.contains("#FF0000"));
}

#[test]
fn test_visgrid_update_text() {
    let output = VisGrid::new(3, 3, None)
        .update_text((1, 1), "hello".to_string())
        .to_vis_string("test");
    assert!(output.contains("hello"));
}

#[test]
fn test_visgrid_cell_text_mid_empty() {
    let output = VisGrid::new(2, 3, None)
        .update_text((0, 0), "a".to_string())
        .update_text((2, 0), "c".to_string())
        .to_vis_string("test");
    assert!(output.contains("CELL_TEXT"));
    assert!(output.contains("a \"\" c"));
}

#[test]
fn test_visgrid_cell_text_trailing_empty() {
    let output = VisGrid::new(1, 3, None)
        .update_text((0, 0), "hello".to_string())
        .to_vis_string("test");
    assert!(output.contains("CELL_TEXT"));
    assert!(output.contains("hello\n"));
    assert!(!output.contains("hello "));
}

#[test]
fn ahc_vdsl_tests_test_visgrid_add_line() {
    let output = VisGrid::new(5, 5, None)
        .add_line(vec![(0, 0), (1, 1), (2, 2)], BLUE())
        .to_vis_string("test");
    assert!(output.contains("LINES"));
    assert!(output.contains("1"));
    assert!(output.contains("#0000FF"));
}

#[test]
fn ahc_vdsl_tests_test_visgrid_multiple_operations() {
    let output = VisGrid::new(4, 4, None)
        .update_cell_color((0, 0), RED())
        .update_cell_color((3, 3), BLUE())
        .update_cell_color((1, 1), GREEN())
        .add_line(vec![(0, 0), (1, 0), (2, 0)], YELLOW())
        .add_line(vec![(0, 3), (1, 3), (2, 3), (3, 3)], CYAN())
        .to_vis_string("multi");

    assert!(output.contains("#FF0000"));
    assert!(output.contains("#0000FF"));
    assert!(output.contains("#00FF00"));
    assert!(output.contains("#FFFF00"));
    assert!(output.contains("#00FFFF"));

    let lines_section = output.split("LINES").nth(1).unwrap();
    assert!(lines_section.trim().starts_with("2"));
}

#[test]
fn ahc_vdsl_tests_test_visgrid_walls() {
    let output = VisGrid::new(2, 2, None)
        .remove_wall_vertical((1, 0))
        .remove_wall_horizontal((0, 1))
        .to_vis_string("walls");
    assert!(output.contains("WALL_VERTICAL"));
    assert!(output.contains("WALL_HORIZONTAL"));
}

#[test]
fn tests_test_visgrid_update_cell_color() {
    let grid = VisGrid::new(3, 3, None).update_cell_color((1, 1), RED());

    let output = grid.to_vis_string("test");
    assert!(output.contains("#FF0000"));
}

#[test]
fn tests_test_visgrid_add_line() {
    let grid = VisGrid::new(5, 5, None).add_line(vec![(0, 0), (1, 1), (2, 2)], BLUE());

    let output = grid.to_vis_string("test");
    assert!(output.contains("LINES"));
    assert!(output.contains("1"));
    assert!(output.contains("#0000FF"));
}

#[test]
fn tests_test_visgrid_multiple_operations() {
    let grid = VisGrid::new(4, 4, None)
        .update_cell_color((0, 0), RED())
        .update_cell_color((3, 3), BLUE())
        .update_cell_color((1, 1), GREEN())
        .add_line(vec![(0, 0), (1, 0), (2, 0)], YELLOW())
        .add_line(vec![(0, 3), (1, 3), (2, 3), (3, 3)], CYAN());

    let output = grid.to_vis_string("multi");

    assert!(output.contains("#FF0000"));
    assert!(output.contains("#0000FF"));
    assert!(output.contains("#00FF00"));
    assert!(output.contains("#FFFF00"));
    assert!(output.contains("#00FFFF"));

    let lines_section = output.split("LINES").nth(1).unwrap();
    assert!(lines_section.trim().starts_with("2"));
}

#[test]
fn tests_test_visgrid_walls() {
    let grid = VisGrid::new(2, 2, None)
        .remove_wall_vertical((1, 0))
        .remove_wall_horizontal((0, 1));
    let output = grid.to_vis_string("walls");
    assert!(output.contains("WALL_VERTICAL"));
    assert!(output.contains("WALL_HORIZONTAL"));
}

#[test]
fn fresh_grid_is_written_exactly() {
    let output = VisGrid::new(2, 3, None).to_vis_string("m");
    assert_eq!(
        output,
        "$v(m) GRID 2 3 #000000 #000000 #FFFFFF\nCELL_COLORS_POS\n0\nLINES\n0\n"
    );
}

#[test]
fn grid_with_everything_is_written_exactly() {
    let output = VisGrid::new(2, 3, Some(ItemBounds::new(num(1.5), num(0.0), num(-2.0), num(10.0))))
        .update_cell_color((2, 0), RED())
        .update_cell_color((0, 1), BLUE())
        .update_cell_color((1, 1), RED())
        .update_text((1, 0), "x y".to_string())
        .update_text((0, 1), "q".to_string())
        .add_line(vec![(0, 0), (2, 1)], GREEN())
        .add_line(vec![], YELLOW())
        .remove_wall_horizontal((0, 1))
        .remove_wall_horizontal((2, 2))
        .remove_wall_vertical((1, 3))
        .remove_wall_vertical((0, 0))
        .to_vis_string("main");
    let expected = concat_lines(&[
        "$v(main) GRID(1.5, 0, -2, 10) 2 3 #000000 #000000 #FFFFFF",
        "CELL_COLORS_POS",
        "2",
        "#FF0000 2 2 0 1 1",
        "#0000FF 1 0 1",
        "CELL_TEXT",
        "\"\" x y",
        "q",
        "LINES",
        "2",
        "#00FF00 2 0 0 2 1",
        "#FFFF00 0",
        "WALL_HORIZONTAL",
        "YYY",
        "NYY",
        "YYN",
        "WALL_VERTICAL",
        "NYYY",
        "YYYN",
    ]);
    assert_eq!(output, expected);
}

fn concat_lines(lines: &[&str]) -> String {
    let mut s = String::new();
    for l in lines {
        s.push_str(l);
        s.push('\n');
    }
    s
}

#[test]
fn cell_back_to_default_color_leaves_its_group() {
    let output = VisGrid::new(1, 2, None)
        .update_cell_color((0, 0), RED())
        .update_cell_color((0, 0), ahc_vdsl::WHITE())
        .to_vis_string("m");
    assert_eq!(
        output,
        "$v(m) GRID 1 2 #000000 #000000 #FFFFFF\nCELL_COLORS_POS\n0\nLINES\n0\n"
    );
}

#[test]
fn wall_removed_and_put_back_leaves_no_section() {
    let fresh = VisGrid::new(2, 2, None).to_vis_string("m");
    let output = VisGrid::new(2, 2, None)
        .remove_wall_vertical((1, 0))
        .add_wall_vertical((1, 0))
        .remove_wall_horizontal((0, 1))
        .add_wall_horizontal((0, 1))
        .to_vis_string("m");
    assert_eq!(output, fresh);
    assert!(!output.contains("WALL"));
}

#[test]
fn wall_put_back_where_none_was_removed_changes_nothing() {
    let output = VisGrid::new(1, 1, None)
        .remove_wall_vertical((0, 1))
        .add_wall_vertical((0, 0))
        .to_vis_string("m");
    assert!(output.ends_with("WALL_VERTICAL\nYN\n"));
}

#[test]
fn text_rows_keep_empty_lines_for_empty_rows() {
    let output = VisGrid::new(3, 2, None)
        .update_text((1, 2), "z".to_string())
        .to_vis_string("m");
    assert!(output.contains("CELL_TEXT\n\n\n\"\" z\nLINES\n"));
}

#[test]
fn text_emptied_again_drops_the_section() {
    let output = VisGrid::new(1, 1, None)
        .update_text((0, 0), "z".to_string())
        .update_text((0, 0), String::new())
        .to_vis_string("m");
    assert!(!output.contains("CELL_TEXT"));
}

#[test]
fn grid_without_cells_is_written() {
    let output = VisGrid::new(0, 0, None).remove_wall_horizontal((5, 5)).to_vis_string("m");
    assert_eq!(
        output,
        "$v(m) GRID 0 0 #000000 #000000 #FFFFFF\nCELL_COLORS_POS\n0\nLINES\n0\nWALL_HORIZONTAL\n\n"
    );
}

#[test]
fn large_numbers_are_written_in_full() {
    let output = VisGrid::new(1, 1, None)
        .add_line(vec![(1234567890, 10), (0, 907)], BLUE())
        .to_vis_string("m");
    assert!(output.contains("#0000FF 2 1234567890 10 0 907\n"));
}
