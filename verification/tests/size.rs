use viu::size::{get_size, size_or_default};

#[test]
fn size_is_one_row_less_than_told() {
    assert_eq!(get_size(0, 80, 24), Ok((80, 23)));
    assert_eq!(get_size(0, 0, 1), Ok((0, 0)));
    assert_eq!(get_size(0, u16::MAX, u16::MAX), Ok((65535, 65534)));
    assert_eq!(get_size(-1, 80, 24), Err("Could not get terminal size, using default width..."));
    assert_eq!(get_size(1, 0, 0), Err("Could not get terminal size, using default width..."));
}

#[test]
fn a_terminal_without_rows_leaves_none() {
    assert_eq!(get_size(0, 80, 0), Ok((80, 0)));
    assert_eq!(get_size(0, 0, 0), Ok((0, 0)));
    assert_eq!(get_size(0, u16::MAX, 0), Ok((65535, 0)));
    assert_eq!(size_or_default(get_size(0, 80, 0)), (80, 0));
    // one row is taken by the prompt, so that one row leaves none either
    assert_eq!(get_size(0, 80, 1), Ok((80, 0)));
    assert_eq!(get_size(0, 80, 2), Ok((80, 1)));
}

#[test]
fn size_falls_back_to_the_default() {
    assert_eq!(size_or_default(get_size(0, 80, 24)), (80, 23));
    assert_eq!(size_or_default(get_size(-1, 80, 24)), (100, 40));
    assert_eq!(size_or_default(Err("no terminal")), (100, 40));
}
