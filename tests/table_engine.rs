use ctk::{
    AwsProvider, Ec2Instance, Ec2Response, SsmParameter, SsmResponse, Table, TableColumnFormat,
    TableError,
};

fn strings(cells: &[&str]) -> Vec<String> {
    cells.iter().map(|c| c.to_string()).collect()
}

#[test]
fn new_keeps_header_and_defaults_to_left() {
    let t = Table::new(strings(&["a", "bb", "ccc"]));
    assert_eq!(t.calculate_width(), vec![1, 2, 3]);
    assert_eq!(t.render(1), "a bb ccc\n");
}

#[test]
fn default_format_is_left_for_every_column() {
    let f = Table::default_format_for_length(3);
    assert_eq!(f.len(), 3);
    assert!(f.iter().all(|x| *x == TableColumnFormat::ToLeft));
    assert!(Table::default_format_for_length(0).is_empty());
    assert_eq!(TableColumnFormat::default(), TableColumnFormat::ToLeft);
}

#[test]
fn push_accepts_row_of_header_length() {
    let mut t = Table::new(strings(&["k", "v"]));
    assert!(t.push(strings(&["key", "value"])).is_ok());
    assert_eq!(t.render(1), "k   v    \nkey value\n");
}

#[test]
fn push_rejects_wrong_length_and_keeps_rows() {
    let mut t = Table::new(strings(&["k", "v"]));
    t.push(strings(&["a", "b"])).unwrap();
    let before = t.render(2);
    let short = t.push(strings(&["only"]));
    assert!(matches!(short, Err(TableError::IncorrectRowLength)));
    let long = t.push(strings(&["1", "2", "3"]));
    assert!(matches!(long, Err(TableError::IncorrectRowLength)));
    assert_eq!(t.render(2), before);
}

#[test]
fn widths_are_the_widest_cell_including_header() {
    let mut t = Table::new(strings(&["Name", "X"]));
    t.push(strings(&["ab", "longer"])).unwrap();
    t.push(strings(&["abcdef", ""])).unwrap();
    assert_eq!(t.calculate_width(), vec![6, 6]);
    let hidden = t.show_header(false);
    assert_eq!(hidden.calculate_width(), vec![6, 6]);
}

#[test]
fn widths_count_display_columns_not_characters() {
    let mut t = Table::new(strings(&["h"]));
    t.push(strings(&["日本"])).unwrap();
    assert_eq!(t.calculate_width(), vec![4]);
    assert_eq!(t.render(0), "h   \n日本\n");
}

#[test]
fn render_twice_gives_same_text() {
    let mut t = Table::new(strings(&["a", "b"])).with_format(vec![
        TableColumnFormat::ToRight,
        TableColumnFormat::ToLeft,
    ]);
    t.push(strings(&["xyz", "q"])).unwrap();
    let first = t.render(3);
    let second = t.render(3);
    assert_eq!(first, second);
    assert_eq!(first, "  a   b\nxyz   q\n");
}

#[test]
fn hidden_header_is_not_printed() {
    let mut t = Table::new(strings(&["Header", "Row"]));
    t.push(strings(&["a", "b"])).unwrap();
    t.push(strings(&["c", "d"])).unwrap();
    let t = t.show_header(false);
    let out = t.render(1);
    assert_eq!(out.lines().count(), 2);
    assert_eq!(out, "a      b  \nc      d  \n");
}

#[test]
fn hidden_header_without_data_renders_nothing() {
    let t = Table::new(strings(&["a", "b"])).show_header(false);
    assert_eq!(t.render(2), "");
}

#[test]
fn empty_header_renders_empty_line() {
    let t = Table::new(Vec::new());
    assert!(t.calculate_width().is_empty());
    assert_eq!(t.render(2), "\n");
}

#[test]
fn right_alignment_pads_before() {
    let mut t = Table::new(strings(&["n"])).with_format(vec![TableColumnFormat::ToRight]);
    t.push(strings(&["12345"])).unwrap();
    assert_eq!(t.render(0), "    n\n12345\n");
}

#[test]
fn instances_scenario_renders_aligned() {
    let mut r = Ec2Response::new();
    r.push(Ec2Instance {
        name: "web-1".to_string(),
        instance_id: "i-abc".to_string(),
        state: "running".to_string(),
        private_ip: "10.0.0.5".to_string(),
    });
    let t = Table::from_instances(r);
    assert_eq!(t.calculate_width(), vec![5, 11, 7, 10]);
    let out = t.render(2);
    assert_eq!(
        out,
        " Name  Instance ID  State    Private IP\nweb-1  i-abc        running  10.0.0.5  \n"
    );
}

#[test]
fn instances_with_no_results_show_only_header() {
    let t = Table::from_instances(Ec2Response::new());
    assert_eq!(t.render(2), "Name  Instance ID  State  Private IP\n");
}

#[test]
fn parameters_table_keeps_order() {
    let mut r = SsmResponse::new();
    r.push(SsmParameter {
        name: "/b".to_string(),
        param_type: "String".to_string(),
        value: "2".to_string(),
    });
    r.push(SsmParameter {
        name: "/a".to_string(),
        param_type: "SecureString".to_string(),
        value: "<encrypted>".to_string(),
    });
    let out = Table::from_parameters(r).render(2);
    assert_eq!(
        out,
        "Name  Type          Value      \n/b    String        2          \n/a    SecureString  <encrypted>\n"
    );
}

#[test]
fn whoami_scenario_renders_three_lines() {
    let p = AwsProvider::new();
    let id = p.identity(
        Some("123".to_string()),
        Some("arn:aws:iam::123:user/x".to_string()),
        Some("AID123".to_string()),
    );
    let out = Table::from_identity(id).render(2);
    let expected = format!(
        "AWS ARN:  arn:aws:iam::123:user/x\nUser ID:  {:<23}\nAccount:  {:<23}\n",
        "AID123", "123"
    );
    assert_eq!(out, expected);
    assert_eq!(out.lines().count(), 3);
}
