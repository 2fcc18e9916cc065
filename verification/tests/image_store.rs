use shop_catalog::image_store::{
    owner_tree, parent_dir, store_product_image, store_type_image, web_path_of_product_image,
    web_path_of_type_image,
};

#[test]
fn type_images_go_to_the_main_folder_of_the_type() {
    let image = store_type_image("electronics", 0);
    assert_eq!(image.folder, "../databases/dbimages/electronics/main");
    assert_eq!(image.path, "../databases/dbimages/electronics/main/electronics_0.jpg");
    let image = store_type_image("electronics", 12);
    assert_eq!(image.path, "../databases/dbimages/electronics/main/electronics_12.jpg");
}

#[test]
fn an_unnamed_type_gets_the_placeholder_name() {
    let image = store_type_image("", 3);
    assert_eq!(image.folder, "../databases/dbimages//main");
    assert_eq!(image.path, "../databases/dbimages//main/temp_product_3.jpg");
}

#[test]
fn product_images_go_below_the_folder_of_the_type() {
    let image = store_product_image("electronics", "phone", 1);
    assert_eq!(image.folder, "../databases/dbimages/electronics/phone");
    assert_eq!(image.path, "../databases/dbimages/electronics/phone/phone_1.jpg");
    let image = store_product_image("other", "", 0);
    assert_eq!(image.folder, "../databases/dbimages/other/");
    assert_eq!(image.path, "../databases/dbimages/other//temp_product_0.jpg");
}

#[test]
fn parent_is_the_text_before_the_last_slash() {
    assert_eq!(parent_dir("a/b/c.jpg"), Some("a/b".to_string()));
    assert_eq!(parent_dir("a/b"), Some("a".to_string()));
    assert_eq!(parent_dir("/a"), Some("".to_string()));
    assert_eq!(parent_dir("a/"), Some("a".to_string()));
    assert_eq!(parent_dir("a"), None);
    assert_eq!(parent_dir(""), None);
}

#[test]
fn a_product_goes_with_the_folder_of_its_images() {
    assert_eq!(
        owner_tree("../databases/dbimages/electronics/phone/phone_0.jpg", 1),
        Some("../databases/dbimages/electronics/phone".to_string())
    );
}

#[test]
fn a_type_goes_with_the_folder_two_levels_up() {
    assert_eq!(
        owner_tree("../databases/dbimages/electronics/main/electronics_0.jpg", 2),
        Some("../databases/dbimages/electronics".to_string())
    );
}

#[test]
fn a_path_without_enough_levels_has_no_tree() {
    assert_eq!(owner_tree("x.jpg", 1), None);
    assert_eq!(owner_tree("a/x.jpg", 2), None);
    assert_eq!(owner_tree("a/x.jpg", 0), Some("a/x.jpg".to_string()));
}

#[test]
fn stored_paths_become_addresses_by_their_prefix() {
    assert_eq!(
        web_path_of_type_image("../databases/dbimages/main/food_0.jpg"),
        "http://localhost:2001/images/main/food_0.jpg"
    );
    assert_eq!(web_path_of_type_image("elsewhere/food_0.jpg"), "elsewhere/food_0.jpg");
    assert_eq!(web_path_of_type_image("../databases/dbimages/"), "http://localhost:2001/images/");
    assert_eq!(
        web_path_of_product_image("../databases/dbimages/other/phone/phone_0.jpg"),
        Some("/images/other/phone/phone_0.jpg".to_string())
    );
    assert_eq!(web_path_of_product_image("elsewhere/phone_0.jpg"), None);
    assert_eq!(
        web_path_of_product_image("../databases/dbimages/a/../databases/dbimages/b.jpg"),
        Some("/images/a/../databases/dbimages/b.jpg".to_string())
    );
}
