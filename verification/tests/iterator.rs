use snake_game::iterator::{shoes_fit_size, IIterator, Shoe};

#[test]
fn filters_by_size() {
    let shoes = vec![
        Shoe { size: 10, style: String::from("sneaker") },
        Shoe { size: 13, style: String::from("sandal") },
        Shoe { size: 10, style: String::from("boot") },
    ];
    let fit_size = shoes_fit_size(shoes, 10);
    assert_eq!(
        fit_size,
        vec![
            Shoe { size: 10, style: String::from("sneaker") },
            Shoe { size: 10, style: String::from("boot") },
        ]
    );
}

#[test]
fn filter_may_pick_nothing_or_everything() {
    let none = shoes_fit_size(vec![Shoe { size: 1, style: String::from("a") }], 2);
    assert_eq!(none, Vec::<Shoe>::new());
    let empty = shoes_fit_size(Vec::new(), 2);
    assert_eq!(empty, Vec::<Shoe>::new());
    let all = shoes_fit_size(
        vec![
            Shoe { size: 2, style: String::from("a") },
            Shoe { size: 2, style: String::from("b") },
            Shoe { size: 2, style: String::from("c") },
        ],
        2,
    );
    let styles: Vec<&str> = all.iter().map(|s| s.style.as_str()).collect();
    assert_eq!(styles, vec!["a", "b", "c"]);
}

#[test]
fn shoe_counts_up_to_five() {
    let mut shoe = Shoe { size: 2, style: String::from("clog") };
    assert_eq!(shoe.next(), Some(3));
    assert_eq!(shoe.next(), Some(4));
    assert_eq!(shoe.next(), Some(5));
    assert_eq!(shoe.next(), None);
    assert_eq!(shoe.size, 6);
    assert_eq!(shoe.next(), None);
    assert_eq!(shoe.size, 7);
    assert_eq!(shoe.style, "clog");
}
