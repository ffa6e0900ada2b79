//! The route table: which endpoints are mounted where, and which statuses
//! have a catcher.

use vstd::prelude::*;
use vstd::string::*;
use crate::status::Status;

verus! {

/// An endpoint of the service.
#[derive(Clone, Copy, Debug, PartialEq, Eq, Structural)]
pub enum Endpoint {
    CurrentUser,
    RegisterUser,
    LoginUser,
    UpdateUser,
    CreateArticle,
}

/// A group of endpoints under one path prefix.
#[derive(Debug, PartialEq, Eq)]
pub struct Mount {
    pub base: String,
    pub endpoints: Vec<Endpoint>,
}

/// The mathematical value of a [`Mount`].
pub struct MountView {
    pub base: Seq<char>,
    pub endpoints: Seq<Endpoint>,
}

impl View for Mount {
    type V = MountView;

    open spec fn view(&self) -> MountView {
        MountView { base: self.base@, endpoints: self.endpoints@ }
    }
}

/// The mounts of the service and the statuses that it catches.
#[derive(Debug, PartialEq, Eq)]
pub struct RouteTable {
    pub mounts: Vec<Mount>,
    pub catchers: Vec<Status>,
}

/// The mathematical value of a [`RouteTable`].
pub struct RouteTableView {
    pub mounts: Seq<MountView>,
    pub catchers: Seq<Status>,
}

impl View for RouteTable {
    type V = RouteTableView;

    open spec fn view(&self) -> RouteTableView {
        RouteTableView {
            mounts: self.mounts@.map_values(|mount: Mount| mount@),
            catchers: self.catchers@,
        }
    }
}

/// The table of the service: the user endpoints under `/api/users`, article
/// creation under `/api/articles`, and a catcher for each of not found,
/// unauthenticated, unauthorized, bad request, unprocessable entity and
/// internal server error.
pub open spec fn route_table() -> RouteTableView {
    RouteTableView {
        mounts: seq![
            MountView {
                base: "/api/users"@,
                endpoints: seq![
                    Endpoint::CurrentUser,
                    Endpoint::RegisterUser,
                    Endpoint::LoginUser,
                    Endpoint::UpdateUser,
                ],
            },
            MountView { base: "/api/articles"@, endpoints: seq![Endpoint::CreateArticle] },
        ],
        catchers: seq![
            Status::NotFound,
            Status::Unauthorized,
            Status::Forbidden,
            Status::BadRequest,
            Status::UnprocessableEntity,
            Status::InternalServerError,
        ],
    }
}

/// Builds the route table of the service.
pub fn rocket() -> (table: RouteTable)
    ensures
        table@ == route_table(),
{
    let mut users: Vec<Endpoint> = Vec::new();
    users.push(Endpoint::CurrentUser);
    users.push(Endpoint::RegisterUser);
    users.push(Endpoint::LoginUser);
    users.push(Endpoint::UpdateUser);
    let mut articles: Vec<Endpoint> = Vec::new();
    articles.push(Endpoint::CreateArticle);
    let mut mounts: Vec<Mount> = Vec::new();
    mounts.push(Mount { base: String::from_str("/api/users"), endpoints: users });
    mounts.push(Mount { base: String::from_str("/api/articles"), endpoints: articles });
    let mut catchers: Vec<Status> = Vec::new();
    catchers.push(Status::NotFound);
    catchers.push(Status::Unauthorized);
    catchers.push(Status::Forbidden);
    catchers.push(Status::BadRequest);
    catchers.push(Status::UnprocessableEntity);
    catchers.push(Status::InternalServerError);
    let table = RouteTable { mounts, catchers };
    proof {
        assert(table.mounts@[0]@.endpoints =~= route_table().mounts[0].endpoints);
        assert(table.mounts@[1]@.endpoints =~= route_table().mounts[1].endpoints);
        assert(table@.mounts =~= route_table().mounts);
        assert(table@.catchers =~= route_table().catchers);
    }
    table
}

} // verus!
