//! The data model: the persisted `Cat` and the pre-insert `NewCat`.

use vstd::prelude::*;

verus! {

/// A cat record as the store holds it.
#[derive(Debug, PartialEq, Eq)]
pub struct Cat {
    /// Assigned by the store on insert and never changed afterwards.
    pub id: i32,
    /// Supplied by the user.
    pub name: String,
    /// Where the uploaded image was stored.
    pub image_path: String,
}

/// A cat that has not been inserted yet: the store will assign its id.
#[derive(Debug, PartialEq, Eq)]
pub struct NewCat {
    pub name: String,
    pub image_path: String,
}

/// The mathematical value of a `Cat`.
pub struct CatView {
    pub id: int,
    pub name: Seq<char>,
    pub image_path: Seq<char>,
}

/// The mathematical value of a `NewCat`.
pub struct NewCatView {
    pub name: Seq<char>,
    pub image_path: Seq<char>,
}

impl View for Cat {
    type V = CatView;

    open spec fn view(&self) -> CatView {
        CatView { id: self.id as int, name: self.name@, image_path: self.image_path@ }
    }
}

impl View for NewCat {
    type V = NewCatView;

    open spec fn view(&self) -> NewCatView {
        NewCatView { name: self.name@, image_path: self.image_path@ }
    }
}

impl NewCatView {
    /// The record that results when the store assigns `id` to this cat.
    pub open spec fn with_id(self, id: int) -> CatView {
        CatView { id, name: self.name, image_path: self.image_path }
    }
}

/// The views of a sequence of cats, in order.
pub open spec fn cat_views(cats: Seq<Cat>) -> Seq<CatView> {
    Seq::new(cats.len(), |i: int| cats[i]@)
}

impl Clone for Cat {
    fn clone(&self) -> (copy: Self)
        ensures
            copy == *self,
    {
        Cat { id: self.id, name: self.name.clone(), image_path: self.image_path.clone() }
    }
}

impl Clone for NewCat {
    fn clone(&self) -> (copy: Self)
        ensures
            copy == *self,
    {
        NewCat { name: self.name.clone(), image_path: self.image_path.clone() }
    }
}

} // verus!
