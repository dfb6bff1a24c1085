use vstd::prelude::*;

verus! {

/// Identity a unit declares when it connects: one of the three floor units or
/// the monitoring console. Broadcasts are scoped to groups named after these
/// identities, and floor identity is always derived from the registered
/// connection, never trusted from an event payload.
#[derive(PartialEq, Eq, Structural, Clone, Copy, Debug)]
pub enum ClientId {
    GroundFloor,
    FirstFloor,
    SecondFloor,
    App,
}

impl ClientId {
    /// The identity string a unit presents in its connect-time header, and the
    /// name of the broadcast group it joins.
    pub open spec fn spec_name(self) -> Seq<char> {
        match self {
            ClientId::GroundFloor => "ground_floor"@,
            ClientId::FirstFloor => "first_floor"@,
            ClientId::SecondFloor => "second_floor"@,
            ClientId::App => "app"@,
        }
    }

    /// Identity recognised from a header string; anything else is refused
    /// (fail-closed).
    pub open spec fn spec_from_str(s: Seq<char>) -> Option<ClientId> {
        if s == "ground_floor"@ {
            Some(ClientId::GroundFloor)
        } else if s == "first_floor"@ {
            Some(ClientId::FirstFloor)
        } else if s == "second_floor"@ {
            Some(ClientId::SecondFloor)
        } else if s == "app"@ {
            Some(ClientId::App)
        } else {
            None
        }
    }

    /// Index of the floor this identity names; the console sits past the last
    /// floor, as in the wire protocol's numbering.
    pub open spec fn spec_index(self) -> i32 {
        match self {
            ClientId::GroundFloor => 0,
            ClientId::FirstFloor => 1,
            ClientId::SecondFloor => 2,
            ClientId::App => 3,
        }
    }

    /// Whether this identity is one of the floor units.
    pub open spec fn is_floor(self) -> bool {
        self != ClientId::App
    }

    pub fn from_str(client_id: &str) -> (r: Option<ClientId>)
        ensures
            r == Self::spec_from_str(client_id@),
    {
        let s = client_id.to_owned();
        if s == "ground_floor".to_owned() {
            Some(ClientId::GroundFloor)
        } else if s == "first_floor".to_owned() {
            Some(ClientId::FirstFloor)
        } else if s == "second_floor".to_owned() {
            Some(ClientId::SecondFloor)
        } else if s == "app".to_owned() {
            Some(ClientId::App)
        } else {
            None
        }
    }

    pub fn to_index(&self) -> (r: i32)
        ensures
            r == self.spec_index(),
    {
        match self {
            ClientId::GroundFloor => 0,
            ClientId::FirstFloor => 1,
            ClientId::SecondFloor => 2,
            ClientId::App => 3,
        }
    }

    pub fn from_index(index: i32) -> (r: Option<ClientId>)
        ensures
            r matches Some(c) ==> c.spec_index() == index,
            r is None <==> !(0 <= index <= 3),
    {
        match index {
            0 => Some(ClientId::GroundFloor),
            1 => Some(ClientId::FirstFloor),
            2 => Some(ClientId::SecondFloor),
            3 => Some(ClientId::App),
            _ => None,
        }
    }

    /// The three floor identities, in floor-index order.
    pub fn iter_floors() -> (r: Vec<ClientId>)
        ensures
            r@ == seq![ClientId::GroundFloor, ClientId::FirstFloor, ClientId::SecondFloor],
    {
        let mut floors: Vec<ClientId> = Vec::new();
        floors.push(ClientId::GroundFloor);
        floors.push(ClientId::FirstFloor);
        floors.push(ClientId::SecondFloor);
        proof {
            assert(floors@ =~= seq![
                ClientId::GroundFloor,
                ClientId::FirstFloor,
                ClientId::SecondFloor,
            ]);
        }
        floors
    }

    /// The group name this identity joins, as the wire protocol spells it.
    pub fn as_str(&self) -> (r: &'static str)
        ensures
            r@ == self.spec_name(),
    {
        match self {
            ClientId::GroundFloor => "ground_floor",
            ClientId::FirstFloor => "first_floor",
            ClientId::SecondFloor => "second_floor",
            ClientId::App => "app",
        }
    }
}

} // verus!
