use delineate::paths::{display_path, file_stem_of};
use delineate::title::{document_title, parse_title};

#[test]
fn titles_from_dot_sources() {
    assert_eq!(parse_title(b"digraph foo {}"), b"foo");
    assert_eq!(parse_title(b"graph bar { a -- b }"), b"bar");
    assert_eq!(parse_title(b"strict digraph baz {}"), b"baz");
    assert_eq!(parse_title(b"  DIGRAPH Foo {}"), b"Foo");
}

#[test]
fn unnamed_graphs_have_no_title() {
    assert_eq!(parse_title(b"digraph {}"), b"");
    assert_eq!(parse_title(b"digraph"), b"");
    assert_eq!(parse_title(b""), b"");
    assert_eq!(parse_title(b"graph  {"), b"");
}

#[test]
fn keyword_must_be_a_standalone_early_word() {
    assert_eq!(parse_title(b"xgraph foo {}"), b"");
    assert_eq!(parse_title(b"graphs foo {}"), b"");
    assert_eq!(parse_title(b"a b digraph foo {}"), b"");
    assert_eq!(parse_title(b"strict graph g {}"), b"g");
}

#[test]
fn open_brace_before_the_name_blocks_the_title() {
    assert_eq!(parse_title(b"{ digraph foo }"), b"");
    assert_eq!(parse_title(b"digraph { foo }"), b"");
}

#[test]
fn digraph_wins_over_graph() {
    assert_eq!(parse_title(b"graph digraph x {}"), b"x");
}

#[test]
fn document_title_prefers_the_file() {
    let path = b"/home/u/my_graph.gv".to_vec();
    let contents = b"digraph other {}".to_vec();
    assert_eq!(document_title(Some(&path), &contents), b"my_graph");
    assert_eq!(document_title(None, &contents), b"other");
}

#[test]
fn file_stems() {
    assert_eq!(file_stem_of(b"/home/u/graph.gv"), b"graph");
    assert_eq!(file_stem_of(b"archive.tar.gz"), b"archive.tar");
    assert_eq!(file_stem_of(b".bashrc"), b".bashrc");
    assert_eq!(file_stem_of(b"name."), b"name");
    assert_eq!(file_stem_of(b"/home/u/dir/"), b"dir");
    assert_eq!(file_stem_of(b"/"), b"");
    assert_eq!(file_stem_of(b"a/.."), b"");
    assert_eq!(file_stem_of(b""), b"");
}

#[test]
fn display_paths_fold_home_to_tilde() {
    assert_eq!(display_path(b"/home/u", b"/home/u"), b"~/");
    assert_eq!(display_path(b"/home/u/docs/g.gv", b"/home/u"), b"~/docs/g.gv");
    assert_eq!(display_path(b"/home/ux/g.gv", b"/home/u"), b"/home/ux/g.gv");
    assert_eq!(display_path(b"/etc/g.gv", b"/home/u"), b"/etc/g.gv");
}
