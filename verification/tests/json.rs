use orgboard::layout::BoardLayout;
use orgboard::model::Board;
use orgboard::model::Node;
use orgboard::pipeline::company_board;
use orgboard::model::Company;
use serde_json::Value;

fn text(value: &str) -> Value {
    Value::String(value.to_string())
}

fn nodes_to_json(nodes: &[Node]) -> Value {
    Value::Array(nodes.iter().map(node_to_json).collect())
}

fn node_to_json(node: &Node) -> Value {
    let mut object = serde_json::Map::new();
    object.insert("name".to_string(), text(&node.name));
    object.insert("title".to_string(), text(&node.title));
    object.insert("children".to_string(), nodes_to_json(&node.children));
    Value::Object(object)
}

fn board_to_json(board: &Board) -> Value {
    let mut object = serde_json::Map::new();
    object.insert("company_name".to_string(), text(&board.company_name));
    object.insert("boards".to_string(), nodes_to_json(&board.boards));
    object.insert("members".to_string(), nodes_to_json(&board.members));
    object.insert("company_tree".to_string(), nodes_to_json(&board.company_tree));
    Value::Object(object)
}

fn nodes_from_json(value: &Value) -> Vec<Node> {
    value.as_array().unwrap().iter().map(node_from_json).collect()
}

fn node_from_json(value: &Value) -> Node {
    Node {
        name: value["name"].as_str().unwrap().to_string(),
        title: value["title"].as_str().unwrap().to_string(),
        children: nodes_from_json(&value["children"]),
    }
}

fn board_from_json(value: &Value) -> Board {
    Board {
        company_name: value["company_name"].as_str().unwrap().to_string(),
        boards: nodes_from_json(&value["boards"]),
        members: nodes_from_json(&value["members"]),
        company_tree: nodes_from_json(&value["company_tree"]),
    }
}

fn sample() -> Board {
    let page = "<div class=\"board\"><div class=\"board-column\"><ul class=\"board-block\">\
        <li><div><div class=\"oc-name\">Alice \"Al\" Smith</div><div class=\"oc-title\">CEO</div></div></li>\
        </ul></div><div class=\"board-branch\"><div class=\"board-branch-row\">\
        <div class=\"ocN1\"><ul class=\"board-block\">\
        <li><div><div class=\"oc-name\">山田 太郎</div><div class=\"oc-title\">VP\\Sales</div></div></li>\
        </ul></div><div class=\"ocN2\"><div><ul class=\"board-block\">\
        <li><div><div class=\"oc-name\">Dan</div><div class=\"oc-title\">Lead</div></div></li>\
        </ul></div></div></div></div></div>";
    let company = Company::new("Acme & Co".to_string(), "/acme".to_string());
    company_board(&company, page, &BoardLayout::new().unwrap()).unwrap()
}

#[test]
fn a_board_survives_the_way_through_json() {
    let board = sample();
    let written = serde_json::to_string(&board_to_json(&board)).unwrap();
    let read: Value = serde_json::from_str(&written).unwrap();
    assert_eq!(board_from_json(&read), board);
}

#[test]
fn an_empty_board_survives_the_way_through_json() {
    let board =
        Board { company_name: String::new(), boards: vec![], members: vec![], company_tree: vec![] };
    let written = serde_json::to_string(&board_to_json(&board)).unwrap();
    let read: Value = serde_json::from_str(&written).unwrap();
    assert_eq!(board_from_json(&read), board);
}

#[test]
fn the_json_of_a_board_has_the_fields_of_the_board() {
    let value = board_to_json(&sample());
    let object = value.as_object().unwrap();
    let mut keys: Vec<&str> = object.keys().map(String::as_str).collect();
    keys.sort();
    assert_eq!(keys, vec!["boards", "company_name", "company_tree", "members"]);
    assert_eq!(value["company_name"], text("Acme & Co"));
    assert_eq!(value["boards"][0]["name"], text("Alice \"Al\" Smith"));
    assert_eq!(value["boards"][0]["children"], Value::Array(vec![]));
    assert_eq!(value["members"][0]["title"], text("VP\\Sales"));
    assert_eq!(value["members"][0]["children"][0]["name"], text("Dan"));
    assert_eq!(value["company_tree"], Value::Array(vec![]));
}
