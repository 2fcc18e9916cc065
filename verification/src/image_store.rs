//! Where image files lie on disk: the folder of an owner, the name of each
//! file, the directory that goes when an owner goes, and the address under
//! which a stored path is served.

use crate::text::{chars_of, decimal_digits, decimal_string, starts_with};
use vstd::prelude::*;
use vstd::string::*;

verus! {

/// The directory under which every image lies, with its closing slash.
pub open spec fn image_root() -> Seq<char> {
    "../databases/dbimages/"@
}

/// The folder of a product type's own images.
pub open spec fn type_folder(kind_name: Seq<char>) -> Seq<char> {
    image_root() + kind_name + "/main"@
}

/// The folder of a product's images, below the folder of its type.
pub open spec fn product_folder(kind_name: Seq<char>, product_name: Seq<char>) -> Seq<char> {
    image_root() + kind_name + "/"@ + product_name
}

/// The name that files take from their owner: the owner's name, or a
/// placeholder while the name is not known.
pub open spec fn base_name(owner_name: Seq<char>) -> Seq<char> {
    if owner_name.len() == 0 {
        "temp_product"@
    } else {
        owner_name
    }
}

/// The name of the file with this index among the files of one request.
pub open spec fn file_name(owner_name: Seq<char>, index: nat) -> Seq<char> {
    base_name(owner_name) + "_"@ + decimal_digits(index) + ".jpg"@
}

/// The path of a file in a folder.
pub open spec fn file_path(folder: Seq<char>, owner_name: Seq<char>, index: nat) -> Seq<char> {
    folder + "/"@ + file_name(owner_name, index)
}

/// Where one uploaded image goes: the folder to create and the path to write.
#[derive(Clone, Debug, PartialEq, Eq)]
pub struct StoredImage {
    pub folder: String,
    pub path: String,
}

fn file_in(folder: String, owner_name: &str, index: u64) -> (image: StoredImage)
    ensures
        image.folder@ == folder@,
        image.path@ == file_path(folder@, owner_name@, index as nat),
{
    let mut name = if owner_name.unicode_len() == 0 {
        String::from_str("temp_product")
    } else {
        String::from_str(owner_name)
    };
    name.append("_");
    let digits = decimal_string(index);
    name.append(digits.as_str());
    name.append(".jpg");
    let mut path = folder.clone();
    path.append("/");
    path.append(name.as_str());
    assert(path@ =~= file_path(folder@, owner_name@, index as nat));
    StoredImage { folder, path }
}

/// Where the image with this index of a product type goes.
pub fn store_type_image(kind_name: &str, index: u64) -> (image: StoredImage)
    ensures
        image.folder@ == type_folder(kind_name@),
        image.path@ == file_path(type_folder(kind_name@), kind_name@, index as nat),
{
    let mut folder = String::from_str("../databases/dbimages/");
    folder.append(kind_name);
    folder.append("/main");
    file_in(folder, kind_name, index)
}

/// Where the image with this index of a product goes.
pub fn store_product_image(kind_name: &str, product_name: &str, index: u64) -> (image:
    StoredImage)
    ensures
        image.folder@ == product_folder(kind_name@, product_name@),
        image.path@ == file_path(
            product_folder(kind_name@, product_name@),
            product_name@,
            index as nat,
        ),
{
    let mut folder = String::from_str("../databases/dbimages/");
    folder.append(kind_name);
    folder.append("/");
    folder.append(product_name);
    assert(folder@ =~= product_folder(kind_name@, product_name@));
    file_in(folder, product_name, index)
}

/// The position of the last slash of a path.
pub open spec fn last_slash(path: Seq<char>) -> Option<int>
    decreases path.len(),
{
    if path.len() == 0 {
        None
    } else if path.last() == '/' {
        Some(path.len() - 1)
    } else {
        last_slash(path.drop_last())
    }
}

/// The directory that holds a path: the text before its last slash. A path
/// without a slash has none.
pub open spec fn parent_of(path: Seq<char>) -> Option<Seq<char>> {
    match last_slash(path) {
        Some(at) => Some(path.subrange(0, at)),
        None => None,
    }
}

/// The directory that lies `levels_up` levels above a path.
pub open spec fn tree_above(path: Seq<char>, levels_up: nat) -> Option<Seq<char>>
    decreases levels_up,
{
    if levels_up == 0 {
        Some(path)
    } else {
        match parent_of(path) {
            Some(parent) => tree_above(parent, (levels_up - 1) as nat),
            None => None,
        }
    }
}

/// The directory that holds a path, if the path names one.
pub fn parent_dir(path: &str) -> (parent: Option<String>)
    ensures
        parent.deep_view() == parent_of(path@),
{
    let v = chars_of(path);
    let mut i: usize = v.len();
    assert(v@.subrange(0, i as int) =~= v@);
    while i > 0
        invariant
            i <= v.len(),
            v@ == path@,
            last_slash(v@) == last_slash(v@.subrange(0, i as int)),
        decreases i,
    {
        assert(v@.subrange(0, i as int).last() == v@[i - 1]);
        assert(v@.subrange(0, i as int).drop_last() =~= v@.subrange(0, i - 1));
        if v[i - 1] == '/' {
            return Some(String::from_str(path.substring_char(0, i - 1)));
        }
        i = i - 1;
    }
    None
}

/// The directory to delete with an owner whose first image lies at
/// `first_path`.
pub fn owner_tree(first_path: &str, levels_up: u8) -> (tree: Option<String>)
    ensures
        tree.deep_view() == tree_above(first_path@, levels_up as nat),
{
    let mut tree = String::from_str(first_path);
    let mut left: u8 = levels_up;
    while left > 0
        invariant
            tree_above(tree@, left as nat) == tree_above(first_path@, levels_up as nat),
        decreases left,
    {
        match parent_dir(tree.as_str()) {
            Some(parent) => {
                tree = parent;
            },
            None => {
                return None;
            },
        }
        left = left - 1;
    }
    Some(tree)
}

/// The address of a stored image of a product type: the image root gives
/// way to the address of the image service; another path stays as it is.
pub open spec fn type_web_path(path: Seq<char>) -> Seq<char> {
    if image_root().is_prefix_of(path) {
        "http://localhost:2001/images/"@ + path.skip(image_root().len() as int)
    } else {
        path
    }
}

/// The address of a stored image of a product, relative to the service;
/// none for a path that does not lie under the image root.
pub open spec fn product_web_path(path: Seq<char>) -> Option<Seq<char>> {
    if image_root().is_prefix_of(path) {
        Some("/images/"@ + path.skip(image_root().len() as int))
    } else {
        None
    }
}

/// The text of `path` after the image root, where it lies under it.
fn below_root(path: &str) -> (rest: Option<String>)
    ensures
        rest.deep_view() == (if image_root().is_prefix_of(path@) {
            Some(path@.skip(image_root().len() as int))
        } else {
            None
        }),
{
    let root = "../databases/dbimages/";
    if starts_with(path, root) {
        let from: usize = root.unicode_len();
        let to: usize = path.unicode_len();
        let rest = String::from_str(path.substring_char(from, to));
        assert(rest@ =~= path@.skip(image_root().len() as int));
        Some(rest)
    } else {
        None
    }
}

/// The address under which a stored image of a product type is listed.
pub fn web_path_of_type_image(path: &str) -> (address: String)
    ensures
        address@ == type_web_path(path@),
{
    match below_root(path) {
        Some(rest) => {
            let mut address = String::from_str("http://localhost:2001/images/");
            address.append(rest.as_str());
            address
        },
        None => String::from_str(path),
    }
}

/// The address under which a stored image of a product is listed, if it is listed.
pub fn web_path_of_product_image(path: &str) -> (address: Option<String>)
    ensures
        address.deep_view() == product_web_path(path@),
{
    match below_root(path) {
        Some(rest) => {
            let mut address = String::from_str("/images/");
            address.append(rest.as_str());
            Some(address)
        },
        None => None,
    }
}

} // verus!
