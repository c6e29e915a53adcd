use rut::category::{category_from_row, get_category, visible_categories, Category, CategoryRow};

fn row(id: u32, user_id: u32, is_public: u32) -> CategoryRow {
    CategoryRow { id, user_id, rules: format!("r{id}"), name: format!("n{id}"), is_public }
}

fn cat(id: u32, user_id: u32, is_public: bool) -> Category {
    Category { id, user_id, rules: format!("r{id}"), name: format!("n{id}"), is_public }
}

#[test]
fn row_flag_one_means_public() {
    assert_eq!(category_from_row(&row(1, 7, 1)), cat(1, 7, true));
    assert_eq!(category_from_row(&row(1, 7, 0)), cat(1, 7, false));
    assert_eq!(category_from_row(&row(1, 7, 2)), cat(1, 7, false));
}

#[test]
fn anonymous_viewer_sees_public_categories_in_order() {
    let rows = vec![row(1, 7, 1), row(2, 7, 0), row(3, 7, 1)];
    assert_eq!(visible_categories(&rows, None), vec![cat(1, 7, true), cat(3, 7, true)]);
}

#[test]
fn owner_sees_private_categories_too() {
    let rows = vec![row(1, 7, 1), row(2, 7, 0), row(3, 8, 0)];
    assert_eq!(
        visible_categories(&rows, Some(7)),
        vec![cat(1, 7, true), cat(2, 7, false)]
    );
    assert_eq!(visible_categories(&rows, Some(9)), vec![cat(1, 7, true)]);
    assert_eq!(visible_categories(&vec![], Some(9)), vec![]);
}

#[test]
fn get_category_hides_private_rows() {
    assert_eq!(get_category(&row(5, 7, 1), 0, false), Some(cat(5, 7, true)));
    // a private row whose id differs from its owner's id is never shown
    assert_eq!(get_category(&row(5, 7, 0), 7, true), None);
    assert_eq!(get_category(&row(5, 7, 0), 5, true), None);
    assert_eq!(get_category(&row(5, 7, 0), 5, false), None);
    // the owner test compares the row's id with the row's own user_id
    assert_eq!(get_category(&row(7, 7, 0), 3, true), Some(cat(7, 7, false)));
    assert_eq!(get_category(&row(7, 7, 0), 7, false), None);
}
