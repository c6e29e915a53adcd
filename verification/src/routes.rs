//! Which handler answers a request URL.
use vstd::prelude::*;
use crate::text::{has_suffix, split_once, ends_with, split_once_char, same_text, is_first_index, lemma_first_index};

verus! {

/// The handlers of the service, and the answer for anything else.
#[derive(Clone, Copy, Debug, PartialEq, Eq, Structural)]
pub enum Route {
    Index,
    Login,
    UpdatePassword,
    ListCategories,
    AddCategory,
    EditCategory,
    RemoveCategory,
    ListData,
    AddData,
    EditData,
    RemoveData,
    NotFound,
}

/// The handler named by the part of a URL after its first `/`.
pub open spec fn route_of_path(path: Seq<char>) -> Route {
    if path == "api/login"@ {
        Route::Login
    } else if path == "api/updatePassword"@ {
        Route::UpdatePassword
    } else if path == "api/listCategories"@ {
        Route::ListCategories
    } else if path == "api/addCategory"@ {
        Route::AddCategory
    } else if path == "api/editCategory"@ {
        Route::EditCategory
    } else if path == "api/removeCategory"@ {
        Route::RemoveCategory
    } else if path == "api/listData"@ {
        Route::ListData
    } else if path == "api/addData"@ {
        Route::AddData
    } else if path == "api/editData"@ {
        Route::EditData
    } else if path == "api/removeData"@ {
        Route::RemoveData
    } else {
        Route::NotFound
    }
}

/// A URL that ends in `/` or `/index.html` asks for the page; otherwise the part after
/// its first `/` names the handler; a URL with no `/` is not found.
pub open spec fn route_of(url: Seq<char>) -> Route {
    if has_suffix(url, "/"@) || has_suffix(url, "/index.html"@) {
        Route::Index
    } else {
        match split_once(url, '/') {
            Some((_, path)) => route_of_path(path),
            None => Route::NotFound,
        }
    }
}

/// The handler for the part of a URL after its first `/`.
fn path_route(path: &str) -> (r: Route)
    ensures
        r == route_of_path(path@),
{
    if same_text(path, "api/login") {
        Route::Login
    } else if same_text(path, "api/updatePassword") {
        Route::UpdatePassword
    } else if same_text(path, "api/listCategories") {
        Route::ListCategories
    } else if same_text(path, "api/addCategory") {
        Route::AddCategory
    } else if same_text(path, "api/editCategory") {
        Route::EditCategory
    } else if same_text(path, "api/removeCategory") {
        Route::RemoveCategory
    } else if same_text(path, "api/listData") {
        Route::ListData
    } else if same_text(path, "api/addData") {
        Route::AddData
    } else if same_text(path, "api/editData") {
        Route::EditData
    } else if same_text(path, "api/removeData") {
        Route::RemoveData
    } else {
        Route::NotFound
    }
}

/// The handler that answers a request for `url`.
pub fn route(url: &str) -> (r: Route)
    ensures
        r == route_of(url@),
{
    if ends_with(url, "/") || ends_with(url, "/index.html") {
        return Route::Index;
    }
    match split_once_char(url, '/') {
        Some((_, path)) => path_route(path.as_str()),
        None => Route::NotFound,
    }
}

/// A URL that ends in `/` or `/index.html` asks for the page; one without `/` is not
/// found; otherwise the text after its first `/` picks the handler from the table of API
/// paths, and any other text is not found.
pub proof fn law_route_table(prefix: Seq<char>, path: Seq<char>)
    requires
        !prefix.contains('/'),
    ensures
        ({
            let url = prefix + seq!['/'] + path;
            if has_suffix(url, "/"@) || has_suffix(url, "/index.html"@) {
                route_of(url) == Route::Index
            } else {
                route_of(url) == if path == "api/login"@ {
                    Route::Login
                } else if path == "api/updatePassword"@ {
                    Route::UpdatePassword
                } else if path == "api/listCategories"@ {
                    Route::ListCategories
                } else if path == "api/addCategory"@ {
                    Route::AddCategory
                } else if path == "api/editCategory"@ {
                    Route::EditCategory
                } else if path == "api/removeCategory"@ {
                    Route::RemoveCategory
                } else if path == "api/listData"@ {
                    Route::ListData
                } else if path == "api/addData"@ {
                    Route::AddData
                } else if path == "api/editData"@ {
                    Route::EditData
                } else if path == "api/removeData"@ {
                    Route::RemoveData
                } else {
                    Route::NotFound
                }
            }
        }),
        !has_suffix(prefix, "/"@) && !has_suffix(prefix, "/index.html"@) ==> route_of(prefix)
            == Route::NotFound,
{
    let url = prefix + seq!['/'] + path;
    assert(is_first_index(url, '/', prefix.len() as int)) by {
        assert forall|j: int| 0 <= j < prefix.len() implies url[j] != '/' by {
            assert(url[j] == prefix[j]);
        }
    }
    lemma_first_index(url, '/', prefix.len() as int);
    assert(url.skip(prefix.len() as int + 1) =~= path);
}

} // verus!
