use auction_bot::catalog::Categories;
use auction_bot::models::CategoryRow;

#[test]
fn ensure_category_finds_books_again_in_lower_case() {
    let mut categories = Categories::new();
    let (first, existed) = categories.ensure_category("Books");
    assert!(!existed);
    assert_eq!(first.name, "Books");
    let (second, existed) = categories.ensure_category("books");
    assert!(existed);
    assert_eq!(second.id, first.id);
    assert_eq!(second, first);
    assert_eq!(categories.len(), 1);
}

#[test]
fn categories_are_numbered_in_the_order_they_were_made() {
    let mut categories = Categories::new();
    assert_eq!(categories.len(), 0);
    assert_eq!(categories.find_category_by_name("Art"), None);
    assert_eq!(
        categories.ensure_category("Art"),
        (CategoryRow { id: 1, name: "Art".to_string() }, false)
    );
    assert_eq!(
        categories.ensure_category("Books"),
        (CategoryRow { id: 2, name: "Books".to_string() }, false)
    );
    assert_eq!(
        categories.ensure_category("ART"),
        (CategoryRow { id: 1, name: "Art".to_string() }, true)
    );
    assert_eq!(
        categories.ensure_category("Arts"),
        (CategoryRow { id: 3, name: "Arts".to_string() }, false)
    );
    assert_eq!(
        categories.find_category_by_name("bOOKS"),
        Some(CategoryRow { id: 2, name: "Books".to_string() })
    );
    assert_eq!(categories.find_category_by_name("Book"), None);
    assert_eq!(categories.len(), 3);
}
