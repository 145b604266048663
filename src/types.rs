//! Objects exchanged with the server.
use vstd::prelude::*;

verus! {

/// The triplet that proves client and session identity on every identified request.
#[derive(Debug)]
pub struct SessionIdentification {
    pub session_id: String,
    pub client_public_hash: String,
    pub challenge_answer: String,
}

/// A peer (user, bot or proxy) of the network.
#[derive(Debug)]
pub struct Peer {
    pub id: String,
    pub peer_type: PeerType,
    pub name: String,
    pub username: String,
    pub flags: Vec<String>,
}

#[derive(Debug, Clone, Copy, PartialEq, Eq, Structural)]
pub enum PeerType {
    USER,
    BOT,
    PROXY,
}

#[derive(Debug)]
pub struct DisplayPictureSize {
    pub width: u32,
    pub height: u32,
    pub document: Document,
}

/// A file held by the CDN.
#[derive(Debug)]
pub struct Document {
    pub id: String,
    pub file_mime: String,
    pub file_name: String,
    pub file_size: u32,
    pub file_type: FileType,
    pub flags: Vec<String>,
}

#[derive(Debug, Clone, Copy, PartialEq, Eq, Structural)]
pub enum FileType {
    DOCUMENT,
    PHOTO,
    VIDEO,
    AUDIO,
}

/// A help document such as the terms of service.
#[derive(Debug)]
pub struct HelpDocument {
    pub id: String,
    pub text: String,
    pub entities: Vec<TextEntity>,
}

impl HelpDocument {
    /// The document's text without formatting.
    pub fn get_plain_text(&self) -> (r: String)
        ensures
            r@ == self.text@,
    {
        self.text.clone()
    }
}

/// A formatted span of a text.
#[derive(Debug)]
pub struct TextEntity {
    pub entity_type: TextEntityType,
    pub offset: u32,
    pub length: u32,
    pub value: Option<String>,
}

#[derive(Debug, Clone, Copy, PartialEq, Eq, Structural)]
pub enum TextEntityType {
    BOLD,
    ITALIC,
    CODE,
    STRIKE,
    UNDERLINE,
    URL,
    MENTION,
    HASHTAG,
}

/// What the server tells about itself.
#[derive(Debug)]
pub struct ServerInformation {
    pub network_name: String,
    pub protocol_version: String,
    pub cdn_server: String,
    pub upload_max_file_size: u32,
    pub unauthorized_session_ttl: u32,
    pub authorized_session_ttl: u32,
    pub retrieve_likes_max_limit: u32,
    pub retrieve_reposts_max_limit: u32,
    pub retrieve_replies_max_limit: u32,
    pub retrieve_quotes_max_limit: u32,
    pub retrieve_followers_max_limit: u32,
    pub retrieve_following_max_limit: u32,
    pub retrieve_feed_max_limit: u32,
}

#[derive(Debug)]
pub struct Profile {
    pub first_name: String,
    pub last_name: Option<String>,
    pub name: String,
    pub biography: Option<String>,
    pub location: Option<String>,
    pub url: Option<String>,
    pub followers_count: u32,
    pub following_count: u32,
    pub display_picture_sizes: Vec<DisplayPictureSize>,
}

/// Relationship of a peer with another peer.
#[derive(Debug, Clone, Copy, PartialEq, Eq, Structural)]
pub enum RelationshipType {
    /// No relationship at all.
    Unrelated,
    Following,
    FollowsYou,
    AwaitingApproval,
    MutuallyFollowing,
    Blocked,
    BlockedYou,
}

#[derive(Debug)]
pub struct Post {
    pub id: String,
    pub post_type: PostType,
    pub peer: Option<Peer>,
    pub source: Option<String>,
    pub text: Option<String>,
    pub attachments: Vec<Document>,
    pub entities: Vec<TextEntity>,
    pub mentioned_peers: Vec<Peer>,
    pub reply_to_post: Option<Box<Post>>,
    pub quoted_post: Option<Box<Post>>,
    pub reposted_post: Option<Box<Post>>,
    pub original_thread_post: Option<Box<Post>>,
    pub like_count: Option<usize>,
    pub repost_count: Option<usize>,
    pub quote_count: Option<usize>,
    pub reply_count: Option<usize>,
    pub posted_timestamp: u64,
    pub flags: Vec<String>,
}

#[derive(Debug, Clone, Copy, PartialEq, Eq, Structural)]
pub enum PostType {
    Unknown,
    Deleted,
    Post,
    Reply,
    Quote,
    Repost,
}

} // verus!
