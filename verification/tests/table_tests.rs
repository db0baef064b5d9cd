use wrun::costs::Row;
use wrun::table::{cycles_cells, header_cell_string, push_left_aligned, push_right_aligned, table_lines};

fn readme_rows() -> Vec<Row> {
    vec![
        Row::Data { name: "Canister creation", values: vec![269_230_769_230, 500_000_000_000, 1_307_692_307_692] },
        Row::Separator,
        Row::Data { name: "Xnet byte transmission", values: vec![538, 1_000, 2_615] },
    ]
}

#[test]
fn cycles_table_matches_sample_output() {
    let rows = readme_rows();
    let sizes = [7usize, 13, 34];
    let cells = cycles_cells(&rows);
    let lines = table_lines("Cycles Price Breakdown", &rows, &sizes, &cells);
    assert_eq!(lines.len(), 8);
    assert_eq!(lines[0], "Cycles Price Breakdown");
    assert_eq!(lines[1], "=".repeat(109));
    assert_eq!(lines[2], "");
    assert_eq!(
        lines[3],
        "Transaction                                   7-node app subnet     13-node app subnet     34-node app subnet"
    );
    assert_eq!(lines[4], "-".repeat(109));
    assert_eq!(
        lines[5],
        "Canister creation                               269_230_769_230        500_000_000_000      1_307_692_307_692"
    );
    assert_eq!(lines[6], "");
    assert_eq!(
        lines[7],
        "Xnet byte transmission                                      538                  1_000                  2_615"
    );
}

#[test]
fn lines_have_the_table_width() {
    let rows = readme_rows();
    let sizes = [7usize, 13, 34];
    let cells = cycles_cells(&rows);
    let lines = table_lines("T", &rows, &sizes, &cells);
    for i in [1, 3, 4, 5, 7] {
        assert_eq!(lines[i].chars().count(), 109);
    }
}

#[test]
fn given_cells_are_right_aligned() {
    let rows = vec![Row::Data { name: "Canister creation", values: vec![1, 2] }];
    let cells = vec![vec!["$0.367069".to_string(), "$0.681700".to_string()]];
    let lines = table_lines("USD Cost", &rows, &[7, 13], &cells);
    assert_eq!(
        lines[5],
        format!("{:<40} {:>22} {:>22}", "Canister creation", "$0.367069", "$0.681700")
    );
}

#[test]
fn empty_table_over_no_subnets() {
    let lines = table_lines("Empty", &[], &[], &vec![]);
    assert_eq!(lines, vec!["Empty".to_string(), "=".repeat(40), String::new(), format!("{:<40}", "Transaction"), "-".repeat(40)]);
}

#[test]
fn long_texts_are_not_cut() {
    let mut s = String::new();
    push_left_aligned(&mut s, "abcdef", 3);
    assert_eq!(s, "abcdef");
    let mut t = String::from("x");
    push_right_aligned(&mut t, "abc", 5);
    assert_eq!(t, "x  abc");
    let mut u = String::new();
    push_left_aligned(&mut u, "né", 4);
    assert_eq!(u, "né  ");
}

#[test]
fn header_cells() {
    assert_eq!(header_cell_string(13), "13-node app subnet");
    assert_eq!(header_cell_string(0), "0-node app subnet");
}

#[test]
fn separator_cells_are_empty() {
    let cells = cycles_cells(&readme_rows());
    assert_eq!(cells[0], vec!["269_230_769_230", "500_000_000_000", "1_307_692_307_692"]);
    assert!(cells[1].is_empty());
}
