//! From an operation to the collaborator request that carries it out
//! against one target store.

use vstd::prelude::*;
use crate::operation::{Operation, OperationView};

verus! {

/// The store that a request is addressed to.
#[derive(Clone, Copy, Debug, PartialEq, Eq, Structural)]
pub enum Target {
    /// The authoritative store; its outcome is the caller's outcome.
    Primary,
    /// The optional mirror, kept eventually consistent.
    Backup,
}

/// The collaborator that serves a request.
#[derive(Clone, Copy, Debug, PartialEq, Eq, Structural)]
pub enum Service {
    /// Album creation and membership.
    Album,
    /// Tagging of photos.
    Tag,
    /// Moves, renames and deletions of files.
    FileOps,
}

/// Mathematical value of a [`ServiceCall`].
pub enum ServiceCallView {
    CreateAlbum { name: Seq<char> },
    AddAlbumMembers { photo_ids: Seq<i64>, album_id: i64 },
    AddTag { photo_id: i64, tag_name: Seq<char> },
    MoveFile { from: Seq<char>, to: Seq<char> },
    RenameFile { path: Seq<char>, new_name: Seq<char> },
    DeleteFile { path: Seq<char> },
}

impl ServiceCallView {
    /// The collaborator that a request is routed to.
    pub open spec fn service(self) -> Service {
        match self {
            ServiceCallView::CreateAlbum { .. } => Service::Album,
            ServiceCallView::AddAlbumMembers { .. } => Service::Album,
            ServiceCallView::AddTag { .. } => Service::Tag,
            ServiceCallView::MoveFile { .. } => Service::FileOps,
            ServiceCallView::RenameFile { .. } => Service::FileOps,
            ServiceCallView::DeleteFile { .. } => Service::FileOps,
        }
    }
}

/// One concrete request to a collaborator service.
#[derive(Debug, PartialEq, Eq)]
pub enum ServiceCall {
    CreateAlbum { name: String },
    AddAlbumMembers { photo_ids: Vec<i64>, album_id: i64 },
    AddTag { photo_id: i64, tag_name: String },
    MoveFile { from: String, to: String },
    RenameFile { path: String, new_name: String },
    DeleteFile { path: String },
}

impl View for ServiceCall {
    type V = ServiceCallView;

    open spec fn view(&self) -> ServiceCallView {
        match self {
            ServiceCall::CreateAlbum { name } => ServiceCallView::CreateAlbum { name: name@ },
            ServiceCall::AddAlbumMembers { photo_ids, album_id } => {
                ServiceCallView::AddAlbumMembers { photo_ids: photo_ids@, album_id: *album_id }
            },
            ServiceCall::AddTag { photo_id, tag_name } => ServiceCallView::AddTag {
                photo_id: *photo_id,
                tag_name: tag_name@,
            },
            ServiceCall::MoveFile { from, to } => ServiceCallView::MoveFile {
                from: from@,
                to: to@,
            },
            ServiceCall::RenameFile { path, new_name } => ServiceCallView::RenameFile {
                path: path@,
                new_name: new_name@,
            },
            ServiceCall::DeleteFile { path } => ServiceCallView::DeleteFile { path: path@ },
        }
    }
}

impl ServiceCall {
    /// The collaborator that serves this request.
    pub fn service(&self) -> (service: Service)
        ensures
            service == self@.service(),
    {
        match self {
            ServiceCall::CreateAlbum { .. } => Service::Album,
            ServiceCall::AddAlbumMembers { .. } => Service::Album,
            ServiceCall::AddTag { .. } => Service::Tag,
            ServiceCall::MoveFile { .. } => Service::FileOps,
            ServiceCall::RenameFile { .. } => Service::FileOps,
            ServiceCall::DeleteFile { .. } => Service::FileOps,
        }
    }
}

/// The request that carries out an operation. It depends on the operation
/// alone, so the primary and the backup are asked for the same thing.
pub open spec fn request_for(op: OperationView) -> ServiceCallView {
    match op {
        OperationView::Move { from, to } => ServiceCallView::MoveFile { from, to },
        OperationView::Delete { path } => ServiceCallView::DeleteFile { path },
        OperationView::Rename { path, new_name } => ServiceCallView::RenameFile { path, new_name },
        OperationView::CreateAlbum { name } => ServiceCallView::CreateAlbum { name },
        OperationView::AddToAlbum { photo_id, album_id } => ServiceCallView::AddAlbumMembers {
            photo_ids: seq![photo_id],
            album_id,
        },
        OperationView::AddTag { photo_id, tag_name } => ServiceCallView::AddTag {
            photo_id,
            tag_name,
        },
    }
}

/// Dispatches on the operation's variant: album operations go to the album
/// service, tag operations to the tag service, file operations to the
/// file-operations service.
pub fn plan(op: &Operation) -> (call: ServiceCall)
    ensures
        call@ == request_for(op@),
{
    match op {
        Operation::Move { from, to } => ServiceCall::MoveFile { from: from.clone(), to: to.clone() },
        Operation::Delete { path } => ServiceCall::DeleteFile { path: path.clone() },
        Operation::Rename { path, new_name } => ServiceCall::RenameFile {
            path: path.clone(),
            new_name: new_name.clone(),
        },
        Operation::CreateAlbum { name } => ServiceCall::CreateAlbum { name: name.clone() },
        Operation::AddToAlbum { photo_id, album_id } => {
            let mut photo_ids: Vec<i64> = Vec::new();
            photo_ids.push(*photo_id);
            assert(photo_ids@ =~= seq![*photo_id]);
            ServiceCall::AddAlbumMembers { photo_ids, album_id: *album_id }
        },
        Operation::AddTag { photo_id, tag_name } => ServiceCall::AddTag {
            photo_id: *photo_id,
            tag_name: tag_name.clone(),
        },
    }
}

} // verus!
