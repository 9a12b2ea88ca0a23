use vstd::prelude::*;

verus! {

/// One downloadable build of a game: the target it runs on and where its
/// binary can be fetched from.
#[derive(Clone, Debug)]
pub struct GameExecutable {
    /// A target triple, such as `x86_64-pc-windows-msvc`.
    pub platform: String,
    /// A content-addressed URL or a gateway URL.
    pub url: String,
}

/// A stored game's metadata, as the persistence API returns it.
#[derive(Clone, Debug)]
pub struct Game {
    /// The store's document identifier, as its 24-digit hexadecimal text;
    /// absent until the game is stored.
    pub id: Option<String>,
    pub collection_address: String,
    pub candy_machine_address: String,
    pub name: String,
    pub description: String,
    pub image_url: String,
    pub executables: Vec<GameExecutable>,
    pub creator: String,
    pub metadata_uri: String,
    pub price_lamports: i64,
    /// The creation time, in milliseconds since the Unix epoch (UTC).
    pub created_at_millis: i64,
}

/// A request to store a new game.
#[derive(Clone, Debug)]
pub struct CreateGameRequest {
    pub collection_address: String,
    pub candy_machine_address: String,
    pub name: String,
    pub description: String,
    pub image_url: String,
    pub executables: Vec<GameExecutable>,
    pub creator: String,
    pub metadata_uri: String,
    pub price_lamports: i64,
}

/// The query parameters of a game search; every one is optional.
#[derive(Clone, Debug)]
pub struct SearchQuery {
    pub q: Option<String>,
    pub categories: Option<Vec<String>>,
    pub min_price: Option<i64>,
    pub max_price: Option<i64>,
}

impl Game {
    /// The game that a creation request describes, created at
    /// `created_at_millis` and not yet stored.
    pub fn from_request(req: CreateGameRequest, created_at_millis: i64) -> (r: Game)
        ensures
            r.id is None,
            r.collection_address == req.collection_address,
            r.candy_machine_address == req.candy_machine_address,
            r.name == req.name,
            r.description == req.description,
            r.image_url == req.image_url,
            r.executables == req.executables,
            r.creator == req.creator,
            r.metadata_uri == req.metadata_uri,
            r.price_lamports == req.price_lamports,
            r.created_at_millis == created_at_millis,
    {
        Game {
            id: None,
            collection_address: req.collection_address,
            candy_machine_address: req.candy_machine_address,
            name: req.name,
            description: req.description,
            image_url: req.image_url,
            executables: req.executables,
            creator: req.creator,
            metadata_uri: req.metadata_uri,
            price_lamports: req.price_lamports,
            created_at_millis,
        }
    }
}

} // verus!
