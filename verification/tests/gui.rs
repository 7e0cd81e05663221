use rustyflame::gui::{Button, Draw, Screen, SelectBox};
use rustyflame::thread_pool::{worker_ids, ThreadPoolCreationError};

struct Label(String);

impl Draw for Label {
    fn draw(&self) -> String {
        self.0.clone()
    }
}

#[test]
fn a_screen_shows_its_components_in_order() {
    let screen = Screen {
        components: vec![
            Box::new(SelectBox {
                width: 75,
                height: 10,
                options: vec![String::from("Yes"), String::from("Maybe"), String::from("No")],
            }),
            Box::new(Button { width: 50, height: 10, label: String::from("Big Sad") }),
            Box::new(Label(String::from("plain"))),
        ],
    };
    assert_eq!(
        screen.render(),
        vec![
            String::from(
                "Draw select box : SelectBox { width: 75, height: 10, options: [\"Yes\", \"Maybe\", \"No\"] }"
            ),
            String::from("Draw button : Button { width: 50, height: 10, label: \"Big Sad\" }"),
            String::from("plain"),
        ]
    );
    assert_eq!(Screen { components: vec![] }.render(), Vec::<String>::new());
}

#[test]
fn a_pool_needs_a_worker() {
    assert_eq!(worker_ids(0), Err(ThreadPoolCreationError::NullSize));
    assert_eq!(worker_ids(1), Ok(vec![0]));
    assert_eq!(worker_ids(4), Ok(vec![0, 1, 2, 3]));
    assert_eq!(
        ThreadPoolCreationError::NullSize.to_string(),
        "Tried to instantiate a thread pool with no worker (size = 0)."
    );
}
