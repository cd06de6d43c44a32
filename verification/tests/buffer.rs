use editor::buffer::{Buffer, BufferPosition, BufferSelection};
use editor::EditError;

#[test]
fn insert() {
    let mut buffer = Buffer::from_vec(vec![
        String::from("Salut les amis"),      // 14
        String::from("Comment allez vous?"), // 19
    ]);

    buffer.insert('a', BufferPosition::new(3, 0)).unwrap();
    assert_eq!(buffer.get_lines()[0], String::from("Salaut les amis"));

    buffer.insert('b', BufferPosition::new(0, 1)).unwrap();
    assert_eq!(buffer.get_lines()[1], String::from("bComment allez vous?"));
}

#[test]
fn delete() {
    let mut buffer = Buffer::from_vec(vec![
        String::from("Salut les amis"),      // 14
        String::from("Comment allez vous?"), // 19
    ]);

    buffer.delete(BufferPosition::new(0, 0)).unwrap();
    assert_eq!(buffer.get_lines()[0], String::from("alut les amis"));

    buffer.delete(BufferPosition::new(3, 1)).unwrap();
    assert_eq!(buffer.get_lines()[1], String::from("Coment allez vous?"));
}

#[test]
fn split_line() {
    let mut buffer = Buffer::from_vec(vec![String::from("Bonjour les amis")]);

    buffer.split_line(BufferPosition::new(7, 0)).unwrap();
    assert_eq!(buffer.get_lines().len(), 2);
    assert_eq!(
        *buffer.get_lines(),
        vec![String::from("Bonjour"), String::from(" les amis")]
    );
}

#[test]
fn delete_range() {
    let mut buffer = Buffer::from_vec(vec![
        String::from("Bonjour les amis"),
        String::from("Comment allez vous?"),
    ]);

    let selection = BufferSelection::new(BufferPosition::new(0, 0), BufferPosition::new(6, 0));
    buffer.delete_range(selection).unwrap();
    assert_eq!(buffer.get_lines()[0], String::from(" les amis"));

    let selection = BufferSelection::new(BufferPosition::new(8, 0), BufferPosition::new(2, 1));
    buffer.delete_range(selection).unwrap();
    assert_eq!(buffer.get_lines().len(), 1);
    assert_eq!(buffer.get_lines()[0], String::from(" les amiment allez vous?"));

    let mut buffer = Buffer::from_vec(vec![
        String::from("Bonjour les amis"),
        String::from("Comment allez vous?"),
    ]);

    let selection = BufferSelection::new(BufferPosition::new(0, 0), BufferPosition::new(18, 1));
    buffer.delete_range(selection).unwrap();
    assert_eq!(*buffer.get_lines(), vec![String::from("")]);

    let mut buffer = Buffer::from_vec(vec![
        String::from("Bonjour les amis"),
        String::from("Je suis l√† pour vous aider"),
        String::from("Comment allez vous?"),
    ]);

    let selection = BufferSelection::new(BufferPosition::new(0, 0), BufferPosition::new(18, 2));
    buffer.delete_range(selection).unwrap();
    assert_eq!(*buffer.get_lines(), vec![String::from("")]);

    let mut buffer = Buffer::from_vec(vec![
        String::from("Bonjour les amis"),
        String::from("Bonjour les amis"),
        String::from("Comment allez vous?"),
    ]);

    let selection = BufferSelection::new(BufferPosition::new(6, 0), BufferPosition::new(10, 2));
    buffer.delete_range(selection).unwrap();
    assert_eq!(*buffer.get_lines(), vec![String::from("Bonjouez vous?")]);
}

#[test]
fn get_size() {
    let buffer = Buffer::from_vec(vec![
        String::from("Bonjour les amis"),
        String::from("Bonjour les amis"),
        String::from("Comment allez vous?"),
    ]);

    assert_eq!(buffer.get_size(), 3);
}

#[test]
fn empty_input_normalizes_to_one_empty_line() {
    let buffer = Buffer::from_vec(vec![]);
    assert_eq!(buffer.get_size(), 1);
    assert_eq!(buffer.get_lines()[0], String::new());

    let buffer = Buffer::new();
    assert_eq!(buffer.get_size(), 1);
    assert_eq!(buffer.get_lines()[0], String::new());
}

#[test]
fn insert_out_of_bounds() {
    let mut buffer = Buffer::from_vec(vec![String::from("abc")]);
    assert_eq!(
        buffer.insert('x', BufferPosition::new(0, 1)),
        Err(EditError::OutOfBounds)
    );
    assert_eq!(
        buffer.insert('x', BufferPosition::new(4, 0)),
        Err(EditError::OutOfBounds)
    );
    // Inserting at the line's end is allowed.
    assert_eq!(buffer.insert('x', BufferPosition::new(3, 0)), Ok(()));
    assert_eq!(buffer.get_lines()[0], String::from("abcx"));
}

#[test]
fn delete_out_of_bounds() {
    let mut buffer = Buffer::from_vec(vec![String::from("abc")]);
    assert_eq!(
        buffer.delete(BufferPosition::new(3, 0)),
        Err(EditError::OutOfBounds)
    );
    assert_eq!(
        buffer.delete(BufferPosition::new(0, 2)),
        Err(EditError::OutOfBounds)
    );
    assert_eq!(buffer.get_lines()[0], String::from("abc"));
}

#[test]
fn join_line_restores_split() {
    let mut buffer = Buffer::from_vec(vec![String::from("Bonjour les amis")]);
    buffer.split_line(BufferPosition::new(7, 0)).unwrap();
    assert_eq!(buffer.get_size(), 2);
    buffer.join_line(0).unwrap();
    assert_eq!(*buffer.get_lines(), vec![String::from("Bonjour les amis")]);
}

#[test]
fn join_line_at_last_line_fails() {
    let mut buffer = Buffer::from_vec(vec![String::from("ab"), String::from("cd")]);
    buffer.join_line(0).unwrap();
    assert_eq!(*buffer.get_lines(), vec![String::from("abcd")]);
    assert_eq!(buffer.join_line(0), Err(EditError::OutOfBounds));
}

#[test]
fn split_line_at_ends() {
    let mut buffer = Buffer::from_vec(vec![String::from("abc")]);
    buffer.split_line(BufferPosition::new(0, 0)).unwrap();
    assert_eq!(
        *buffer.get_lines(),
        vec![String::from(""), String::from("abc")]
    );

    let mut buffer = Buffer::from_vec(vec![String::from("abc")]);
    buffer.split_line(BufferPosition::new(3, 0)).unwrap();
    assert_eq!(
        *buffer.get_lines(),
        vec![String::from("abc"), String::from("")]
    );
}

#[test]
fn delete_range_invalid_and_out_of_bounds() {
    let mut buffer = Buffer::from_vec(vec![String::from("abc"), String::from("defg")]);

    // End before start, across lines and within one line.
    let backwards = BufferSelection::new(BufferPosition::new(0, 1), BufferPosition::new(2, 0));
    assert_eq!(buffer.delete_range(backwards), Err(EditError::InvalidRange));
    let backwards = BufferSelection::new(BufferPosition::new(2, 0), BufferPosition::new(1, 0));
    assert_eq!(buffer.delete_range(backwards), Err(EditError::InvalidRange));

    // Endpoints past the buffer shape.
    let past_lines = BufferSelection::new(BufferPosition::new(0, 0), BufferPosition::new(0, 2));
    assert_eq!(buffer.delete_range(past_lines), Err(EditError::OutOfBounds));
    let past_column = BufferSelection::new(BufferPosition::new(0, 0), BufferPosition::new(3, 0));
    assert_eq!(buffer.delete_range(past_column), Err(EditError::OutOfBounds));
    let past_end_column = BufferSelection::new(BufferPosition::new(0, 0), BufferPosition::new(4, 1));
    assert_eq!(buffer.delete_range(past_end_column), Err(EditError::OutOfBounds));

    // Nothing was changed by the rejected commands.
    assert_eq!(
        *buffer.get_lines(),
        vec![String::from("abc"), String::from("defg")]
    );
}

#[test]
fn delete_range_drops_exactly_the_lines_between() {
    let mut buffer = Buffer::from_vec(vec![
        String::from("x"),
        String::from("bb"),
        String::from("cc"),
        String::from("dyz"),
    ]);
    // From (0, 0) to (0, 3): the start line keeps nothing, both middle
    // lines vanish, and the end line loses only its first character.
    let selection = BufferSelection::new(BufferPosition::new(0, 0), BufferPosition::new(0, 3));
    buffer.delete_range(selection).unwrap();
    assert_eq!(*buffer.get_lines(), vec![String::from("yz")]);
}

#[test]
fn delete_range_single_line_excises_span() {
    // Removing columns [1, 3): selection from column 1 to column 2.
    let mut buffer = Buffer::from_vec(vec![String::from("abcde")]);
    let selection = BufferSelection::new(BufferPosition::new(1, 0), BufferPosition::new(2, 0));
    buffer.delete_range(selection).unwrap();
    assert_eq!(buffer.get_lines()[0], String::from("ade"));
}

#[test]
fn file_name_round_trip() {
    let mut buffer = Buffer::new();
    assert_eq!(buffer.get_file_name(), String::new());
    buffer.set_file_name(String::from("notes.txt"));
    assert_eq!(buffer.get_file_name(), String::from("notes.txt"));
}

#[test]
fn line_len_counts_characters() {
    let buffer = Buffer::from_vec(vec![String::from("héllo")]);
    // Five characters, although the text is six bytes long.
    assert_eq!(buffer.line_len(0), 5);
}
