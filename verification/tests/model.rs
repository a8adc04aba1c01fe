use orgboard::model::Board;
use orgboard::model::Company;
use orgboard::model::Node;

#[test]
fn new_company_has_neither_children_nor_board() {
    let company = Company::new("Acme".to_string(), "https://example.org/acme".to_string());
    assert_eq!(company.name, "Acme");
    assert_eq!(company.url, "https://example.org/acme");
    assert!(company.children.is_empty());
    assert_eq!(company.board, None);
}

#[test]
fn new_company_takes_empty_texts() {
    let company = Company::new(String::new(), String::new());
    assert_eq!(company.name, "");
    assert_eq!(company.url, "");
}

fn sample_board() -> Board {
    Board {
        company_name: "Acme".to_string(),
        boards: vec![Node { name: "A".to_string(), title: "CEO".to_string(), children: vec![] }],
        members: vec![Node {
            name: "B".to_string(),
            title: "VP".to_string(),
            children: vec![Node {
                name: "C".to_string(),
                title: "Lead".to_string(),
                children: vec![],
            }],
        }],
        company_tree: vec![],
    }
}

#[test]
fn clone_of_a_node_is_equal_to_it() {
    let node = sample_board().members.remove(0);
    let copy = node.clone();
    assert_eq!(copy, node);
    assert_eq!(copy.children.len(), 1);
    assert_eq!(copy.children[0].name, "C");
}

#[test]
fn clone_of_a_board_is_equal_to_it() {
    let board = sample_board();
    assert_eq!(board.clone(), board);
}

#[test]
fn clone_of_a_company_is_equal_to_it() {
    let mut company = Company::new("Acme".to_string(), "u".to_string());
    company.children.push(Company::new("Sub".to_string(), "v".to_string()));
    company.board = Some(sample_board());
    let copy = company.clone();
    assert_eq!(copy, company);
    assert_eq!(copy.children[0].name, "Sub");
    assert_eq!(copy.board, Some(sample_board()));
}
