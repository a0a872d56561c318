//! The closed set of mutations that the engine replicates.

use vstd::prelude::*;

verus! {

/// Mathematical value of an [`Operation`]: every path and name is the
/// sequence of its characters.
pub enum OperationView {
    Move { from: Seq<char>, to: Seq<char> },
    Delete { path: Seq<char> },
    Rename { path: Seq<char>, new_name: Seq<char> },
    CreateAlbum { name: Seq<char> },
    AddToAlbum { photo_id: i64, album_id: i64 },
    AddTag { photo_id: i64, tag_name: Seq<char> },
}

impl OperationView {
    /// The type tag under which an operation of this variant is logged.
    pub open spec fn type_tag(self) -> Seq<char> {
        match self {
            OperationView::Move { .. } => "move"@,
            OperationView::Delete { .. } => "delete"@,
            OperationView::Rename { .. } => "rename"@,
            OperationView::CreateAlbum { .. } => "create_album"@,
            OperationView::AddToAlbum { .. } => "add_to_album"@,
            OperationView::AddTag { .. } => "add_tag"@,
        }
    }
}

/// An immutable description of one requested mutation. It carries no
/// identity of its own; the log gives it one when it is submitted.
#[derive(Debug, PartialEq, Eq)]
pub enum Operation {
    Move { from: String, to: String },
    Delete { path: String },
    Rename { path: String, new_name: String },
    CreateAlbum { name: String },
    AddToAlbum { photo_id: i64, album_id: i64 },
    AddTag { photo_id: i64, tag_name: String },
}

impl View for Operation {
    type V = OperationView;

    open spec fn view(&self) -> OperationView {
        match self {
            Operation::Move { from, to } => OperationView::Move { from: from@, to: to@ },
            Operation::Delete { path } => OperationView::Delete { path: path@ },
            Operation::Rename { path, new_name } => OperationView::Rename {
                path: path@,
                new_name: new_name@,
            },
            Operation::CreateAlbum { name } => OperationView::CreateAlbum { name: name@ },
            Operation::AddToAlbum { photo_id, album_id } => OperationView::AddToAlbum {
                photo_id: *photo_id,
                album_id: *album_id,
            },
            Operation::AddTag { photo_id, tag_name } => OperationView::AddTag {
                photo_id: *photo_id,
                tag_name: tag_name@,
            },
        }
    }
}

impl Clone for Operation {
    fn clone(&self) -> (copy: Self)
        ensures
            copy == *self,
    {
        match self {
            Operation::Move { from, to } => Operation::Move { from: from.clone(), to: to.clone() },
            Operation::Delete { path } => Operation::Delete { path: path.clone() },
            Operation::Rename { path, new_name } => Operation::Rename {
                path: path.clone(),
                new_name: new_name.clone(),
            },
            Operation::CreateAlbum { name } => Operation::CreateAlbum { name: name.clone() },
            Operation::AddToAlbum { photo_id, album_id } => Operation::AddToAlbum {
                photo_id: *photo_id,
                album_id: *album_id,
            },
            Operation::AddTag { photo_id, tag_name } => Operation::AddTag {
                photo_id: *photo_id,
                tag_name: tag_name.clone(),
            },
        }
    }
}

impl Operation {
    /// The type tag stored beside the operation's parameters in the log.
    pub fn operation_type(&self) -> (tag: &'static str)
        ensures
            tag@ == self@.type_tag(),
    {
        match self {
            Operation::Move { .. } => "move",
            Operation::Delete { .. } => "delete",
            Operation::Rename { .. } => "rename",
            Operation::CreateAlbum { .. } => "create_album",
            Operation::AddToAlbum { .. } => "add_to_album",
            Operation::AddTag { .. } => "add_tag",
        }
    }
}

/// The values of a queue of operations, in queue order.
pub open spec fn operations_view(ops: Seq<Operation>) -> Seq<OperationView> {
    ops.map_values(|op: Operation| op@)
}

} // verus!
