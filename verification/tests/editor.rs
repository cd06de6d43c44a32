use editor::buffer::{Buffer, BufferPosition, BufferSelection};
use editor::{Command, CommandOutcome, EditError, Editor, RenderRequest};

fn three_lines() -> Buffer {
    // Line lengths 14, 5 and 20.
    Buffer::from_vec(vec![
        String::from("abcdefghijklmn"),
        String::from("abcde"),
        String::from("abcdefghijklmnopqrst"),
    ])
}

#[test]
fn window_has_exactly_visible_rows() {
    let buffer = three_lines();
    // For every offset in range, the window holds exactly `n` rows.
    for offset in 0..3 {
        let window = buffer.get_n_lines(5, offset);
        assert_eq!(window.len(), 5);
        for (i, row) in window.iter().enumerate() {
            assert_eq!(row.0 as usize, offset + i);
        }
    }
}

#[test]
fn past_end_rows_are_marked_distinctly() {
    let buffer = three_lines();
    let window = buffer.get_n_lines(5, 1);
    // Real rows carry their line's text; past-end rows carry the empty
    // text and an index at or beyond the line count.
    assert_eq!(window[0].1, String::from("abcde"));
    assert_eq!(window[1].1, String::from("abcdefghijklmnopqrst"));
    assert_eq!(window[2].1, String::new());
    assert_eq!(window[3].1, String::new());
    assert!((window[2].0 as usize) >= buffer.get_size());
    assert!((window[3].0 as usize) >= buffer.get_size());
    assert!((window[0].0 as usize) < buffer.get_size());
}

#[test]
fn preferred_column_is_remembered_across_short_lines() {
    let mut ed = Editor::build(three_lines(), 3);
    for _ in 0..12 {
        ed.move_right();
    }
    assert_eq!(ed.get_cursor().get_pos(), (12, 0));
    ed.move_down();
    // Clamped to the short line's last column.
    assert_eq!(ed.get_cursor().get_pos(), (4, 1));
    ed.move_down();
    // Restored on the long line.
    assert_eq!(ed.get_cursor().get_pos(), (12, 2));
}

#[test]
fn horizontal_moves_at_the_edges_are_no_ops() {
    let mut ed = Editor::build(three_lines(), 3);
    ed.move_left();
    assert_eq!(ed.get_cursor().get_pos(), (0, 0));

    // Walk to the last column of the first line (length 14) and push on.
    for _ in 0..20 {
        ed.move_right();
    }
    assert_eq!(ed.get_cursor().get_pos(), (13, 0));
    ed.move_right();
    assert_eq!(ed.get_cursor().get_pos(), (13, 0));
}

#[test]
fn vertical_moves_at_the_edges_are_no_ops() {
    let mut ed = Editor::build(three_lines(), 3);
    assert!(!ed.move_up());
    assert_eq!(ed.get_cursor().get_pos(), (0, 0));
    ed.move_down();
    ed.move_down();
    assert_eq!(ed.get_cursor().get_pos(), (0, 2));
    assert!(!ed.move_down());
    assert_eq!(ed.get_cursor().get_pos(), (0, 2));
}

#[test]
fn moving_past_the_window_scrolls() {
    let mut ed = Editor::build(three_lines(), 2);
    assert!(!ed.move_down());
    assert_eq!(ed.get_scroll_offset(), 0);
    assert_eq!(ed.get_cursor().get_pos(), (0, 1));
    // At the bottom row with a line below: the viewport scrolls instead.
    assert!(ed.move_down());
    assert_eq!(ed.get_scroll_offset(), 1);
    assert_eq!(ed.get_cursor().get_pos(), (0, 1));
    assert_eq!(ed.get_lines()[0].0, 1);
    assert_eq!(ed.get_lines()[1].0, 2);
    // And back up: row 1 first, then a scroll at the top row.
    assert!(!ed.move_up());
    assert_eq!(ed.get_cursor().get_pos(), (0, 0));
    assert!(ed.move_up());
    assert_eq!(ed.get_scroll_offset(), 0);
    assert_eq!(ed.get_cursor().get_pos(), (0, 0));
}

#[test]
fn empty_document_editor() {
    let ed = Editor::new();
    assert_eq!(ed.get_buffer().get_size(), 1);
    assert_eq!(ed.get_buffer().get_lines()[0], String::new());
    assert_eq!(ed.get_cursor().get_pos(), (0, 0));
}

#[test]
fn empty_line_forces_column_zero() {
    let mut ed = Editor::build(
        Buffer::from_vec(vec![String::from("abcd"), String::new(), String::from("xy")]),
        3,
    );
    for _ in 0..3 {
        ed.move_right();
    }
    assert_eq!(ed.get_cursor().get_pos(), (3, 0));
    ed.move_down();
    assert_eq!(ed.get_cursor().get_pos(), (0, 1));
    ed.move_down();
    assert_eq!(ed.get_cursor().get_pos(), (1, 2));
}

#[test]
fn insert_command_edits_at_the_cursor() {
    let mut ed = Editor::build(Buffer::from_vec(vec![String::from("bc")]), 2);
    let outcome = ed.handle_command(Command::InsertChar('a'));
    assert_eq!(outcome, CommandOutcome::Continue(RenderRequest::FullWindow));
    assert_eq!(ed.get_buffer().get_lines()[0], String::from("abc"));
    assert_eq!(ed.get_cursor().get_pos(), (1, 0));
    ed.handle_command(Command::InsertChar('z'));
    assert_eq!(ed.get_buffer().get_lines()[0], String::from("azbc"));
}

#[test]
fn delete_commands_edit_around_the_cursor() {
    let mut ed = Editor::build(Buffer::from_vec(vec![String::from("abc")]), 2);
    // Nothing before column 0: a no-op, cursor-only redraw.
    let outcome = ed.handle_command(Command::DeleteBefore);
    assert_eq!(outcome, CommandOutcome::Continue(RenderRequest::CursorOnly));
    assert_eq!(ed.get_buffer().get_lines()[0], String::from("abc"));

    let outcome = ed.handle_command(Command::DeleteAfter);
    assert_eq!(outcome, CommandOutcome::Continue(RenderRequest::FullWindow));
    assert_eq!(ed.get_buffer().get_lines()[0], String::from("bc"));

    ed.handle_command(Command::MoveRight);
    let outcome = ed.handle_command(Command::DeleteBefore);
    assert_eq!(outcome, CommandOutcome::Continue(RenderRequest::FullWindow));
    assert_eq!(ed.get_buffer().get_lines()[0], String::from("c"));
    assert_eq!(ed.get_cursor().get_pos(), (0, 0));
}

#[test]
fn split_and_join_commands() {
    let mut ed = Editor::build(Buffer::from_vec(vec![String::from("Bonjour les amis")]), 3);
    for _ in 0..7 {
        ed.move_right();
    }
    let outcome = ed.handle_command(Command::SplitLine);
    assert_eq!(outcome, CommandOutcome::Continue(RenderRequest::FullWindow));
    assert_eq!(
        *ed.get_buffer().get_lines(),
        vec![String::from("Bonjour"), String::from(" les amis")]
    );
    assert_eq!(ed.get_cursor().get_pos(), (0, 1));

    ed.move_up();
    let outcome = ed.handle_command(Command::JoinLine);
    assert_eq!(outcome, CommandOutcome::Continue(RenderRequest::FullWindow));
    assert_eq!(
        *ed.get_buffer().get_lines(),
        vec![String::from("Bonjour les amis")]
    );

    // No next line to join: rejected, nothing changes.
    let outcome = ed.handle_command(Command::JoinLine);
    assert_eq!(outcome, CommandOutcome::Rejected(EditError::OutOfBounds));
    assert_eq!(
        *ed.get_buffer().get_lines(),
        vec![String::from("Bonjour les amis")]
    );
}

#[test]
fn delete_range_command() {
    let mut ed = Editor::build(
        Buffer::from_vec(vec![
            String::from("Bonjour les amis"),
            String::from("Comment allez vous?"),
        ]),
        3,
    );
    let sel = BufferSelection::new(BufferPosition::new(8, 0), BufferPosition::new(2, 1));
    let outcome = ed.handle_command(Command::DeleteRange(sel));
    assert_eq!(outcome, CommandOutcome::Continue(RenderRequest::FullWindow));
    assert_eq!(
        *ed.get_buffer().get_lines(),
        vec![String::from("Bonjour ment allez vous?")]
    );
    assert_eq!(ed.get_cursor().get_pos(), (0, 0));
    assert_eq!(ed.get_scroll_offset(), 0);

    let backwards = BufferSelection::new(BufferPosition::new(5, 0), BufferPosition::new(2, 0));
    let outcome = ed.handle_command(Command::DeleteRange(backwards));
    assert_eq!(outcome, CommandOutcome::Rejected(EditError::InvalidRange));
}

#[test]
fn quit_command_changes_nothing() {
    let mut ed = Editor::build(three_lines(), 3);
    ed.move_right();
    let outcome = ed.handle_command(Command::Quit);
    assert_eq!(outcome, CommandOutcome::Quit);
    assert_eq!(ed.get_cursor().get_pos(), (1, 0));
}

#[test]
fn movement_commands_report_the_redraw() {
    let mut ed = Editor::build(three_lines(), 2);
    let outcome = ed.handle_command(Command::MoveRight);
    assert_eq!(outcome, CommandOutcome::Continue(RenderRequest::CursorOnly));
    let outcome = ed.handle_command(Command::MoveDown);
    assert_eq!(outcome, CommandOutcome::Continue(RenderRequest::CursorOnly));
    // This one scrolls, so the whole window must be redrawn.
    let outcome = ed.handle_command(Command::MoveDown);
    assert_eq!(outcome, CommandOutcome::Continue(RenderRequest::FullWindow));
}

#[test]
fn scroll_ops_clamp_at_both_ends() {
    let mut ed = Editor::build(three_lines(), 2);
    ed.scroll_up();
    assert_eq!(ed.get_scroll_offset(), 0);
    ed.scroll_down();
    assert_eq!(ed.get_scroll_offset(), 1);
    assert_eq!(ed.get_lines()[0].0, 1);
    ed.scroll_down();
    assert_eq!(ed.get_scroll_offset(), 2);
    // Offset never passes the last line.
    ed.scroll_down();
    assert_eq!(ed.get_scroll_offset(), 2);
    ed.scroll_up();
    assert_eq!(ed.get_scroll_offset(), 1);
}

#[test]
fn num_column_width_follows_line_count() {
    let ed = Editor::build(three_lines(), 3);
    // Three lines: one digit plus the separator column.
    assert_eq!(ed.get_num_col_width(), 2);

    let many: Vec<String> = (0..42).map(|i| format!("line {i}")).collect();
    let ed = Editor::build(Buffer::from_vec(many), 3);
    assert_eq!(ed.get_num_col_width(), 3);
}

#[test]
fn change_buffer_resets_the_view() {
    let mut ed = Editor::build(three_lines(), 2);
    ed.move_down();
    ed.move_down();
    assert_eq!(ed.get_scroll_offset(), 1);
    ed.change_buffer(Buffer::from_vec(vec![String::from("fresh")]));
    assert_eq!(ed.get_scroll_offset(), 0);
    assert_eq!(ed.get_cursor().get_pos(), (0, 0));
    assert_eq!(ed.get_buffer().get_lines()[0], String::from("fresh"));
    assert_eq!(ed.get_lines().len(), 2);
}

#[test]
fn num_column_tracks_window_rows() {
    let mut col = editor::NumColumn::new();
    assert_eq!(col.get_width(), 0);
    col.update_width(4);
    assert_eq!(col.get_width(), 4);
    col.update(vec![(3, String::from("a")), (4, String::from("b"))]);
    assert_eq!(*col.get_nums(), vec![3, 4]);
    col.update_nums(vec![7]);
    assert_eq!(*col.get_nums(), vec![7]);
}

#[test]
fn gutter_width_follows_edits() {
    let nine: Vec<String> = (0..9).map(|i| format!("l{i}")).collect();
    let mut ed = Editor::build(Buffer::from_vec(nine), 12);
    assert_eq!(ed.get_num_col_width(), 2);
    // Splitting makes a tenth line: the gutter needs one more digit.
    ed.handle_command(Command::SplitLine);
    assert_eq!(ed.get_buffer().get_size(), 10);
    assert_eq!(ed.get_num_col_width(), 3);
    ed.handle_command(Command::JoinLine);
    assert_eq!(ed.get_num_col_width(), 2);
}

#[test]
fn decimal_width_matches_printing() {
    assert_eq!(editor::decimal_width(0), 1);
    assert_eq!(editor::decimal_width(9), 1);
    assert_eq!(editor::decimal_width(10), 2);
    assert_eq!(editor::decimal_width(99), 2);
    assert_eq!(editor::decimal_width(100), 3);
    assert_eq!(editor::decimal_width(65536), 5);
    for n in [0usize, 7, 10, 123, 9999, 100000] {
        assert_eq!(editor::decimal_width(n) as usize, n.to_string().len());
    }
}
