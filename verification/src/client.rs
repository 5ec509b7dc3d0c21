//! The client: the peers it knows, how it selects one, and how it talks to it.

use std::sync::Arc;
use vstd::prelude::*;
use crate::channel_manager::ChannelManager;
use crate::error::Error;
use crate::load_balance::{LoadBalance, Loadbalancer};

verus! {

/// The lock of `parking_lot` behind which a client keeps its peers.
#[verifier::external_type_specification]
#[verifier::external_body]
#[verifier::reject_recursive_types(R)]
#[verifier::reject_recursive_types(T)]
pub struct ExRwLock<R, T: ?Sized>(parking_lot::lock_api::RwLock<R, T>);

/// The raw lock that `parking_lot::RwLock` is made with.
#[verifier::external_type_specification]
#[verifier::external_body]
pub struct ExRawRwLock(parking_lot::RawRwLock);

/// The addresses that a lock of peers held when it was made, in order. What
/// the lock holds later is for its holders to decide, and no name stands for
/// that.
pub uninterp spec fn peers_made_with(lock: parking_lot::RwLock<Vec<String>>) -> Seq<Seq<char>>;

/// The addresses of a list of peers, in order.
pub open spec fn addrs_of(peers: Seq<String>) -> Seq<Seq<char>> {
    Seq::new(peers.len(), |i: int| peers[i]@)
}

/// The addresses that a list of urls names, in order.
pub open spec fn addrs_of_urls(urls: Seq<&str>) -> Seq<Seq<char>> {
    Seq::new(urls.len(), |i: int| urls[i]@)
}

/// `parking_lot::RwLock::new`: a new lock, which holds `peers` when it is
/// made.
#[verifier::external_body]
fn new_peers_lock(peers: Vec<String>) -> (lock: parking_lot::RwLock<Vec<String>>)
    ensures
        peers_made_with(lock) == addrs_of(peers@),
{
    parking_lot::RwLock::new(peers)
}

/// `parking_lot::RwLock::read`: a copy of the list that the lock holds, taken
/// while read access is held. Other holders of the lock may have replaced the
/// list at any time before, so nothing is claimed of the copy.
#[verifier::external_body]
fn read_peers(lock: &parking_lot::RwLock<Vec<String>>) -> (peers: Vec<String>) {
    lock.read().clone()
}

/// `parking_lot::RwLock::write`: puts `peers` in the place of the list that
/// the lock holds, while write access is held.
#[verifier::external_body]
fn write_peers(lock: &parking_lot::RwLock<Vec<String>>, peers: Vec<String>) {
    *lock.write() = peers;
}

/// Ceiling on the size of one message that the client decodes.
pub const MAX_MESSAGE_SIZE: usize = 512 * 1024 * 1024;

/// How the client compresses what it sends.
#[derive(Clone, Copy, Debug, PartialEq, Eq, Structural)]
pub enum Compression {
    Gzip,
    Zstd,
    Uncompressed,
}

impl Default for Compression {
    fn default() -> (compression: Compression)
        ensures
            compression == Compression::Gzip,
    {
        Compression::Gzip
    }
}

/// A way of compressing messages.
#[derive(Clone, Copy, Debug, PartialEq, Eq, Structural)]
pub enum CompressionEncoding {
    Gzip,
    Zstd,
}

impl Compression {
    /// The encoding that messages are sent in, if they are compressed at all.
    pub open spec fn spec_encoding(self) -> Option<CompressionEncoding> {
        match self {
            Compression::Gzip => Some(CompressionEncoding::Gzip),
            Compression::Zstd => Some(CompressionEncoding::Zstd),
            Compression::Uncompressed => None,
        }
    }

    #[verifier::when_used_as_spec(spec_encoding)]
    pub fn encoding(self) -> (encoding: Option<CompressionEncoding>)
        ensures
            encoding == self.spec_encoding(),
    {
        match self {
            Compression::Gzip => Some(CompressionEncoding::Gzip),
            Compression::Zstd => Some(CompressionEncoding::Zstd),
            Compression::Uncompressed => None,
        }
    }
}

/// The encodings that the client accepts from the server, whatever it sends
/// itself.
pub open spec fn accepted_encodings() -> Seq<CompressionEncoding> {
    seq![CompressionEncoding::Gzip, CompressionEncoding::Zstd]
}

/// What it takes to talk to the database at one peer.
#[derive(Clone, Debug, PartialEq, Eq)]
pub struct DatabaseClient {
    /// The peer.
    pub addr: String,
    /// The address that the channel to the peer is set up with.
    pub uri: String,
    /// Ceiling on the size of one decoded message.
    pub max_decoding_message_size: usize,
    /// The encodings accepted from the server.
    pub accept_compressed: Vec<CompressionEncoding>,
    /// The encoding of what is sent, if any.
    pub send_compressed: Option<CompressionEncoding>,
}

/// The owned copies of the addresses in `urls`.
pub fn normalize_urls(urls: &[&str]) -> (peers: Vec<String>)
    ensures
        peers@.len() == urls@.len(),
        forall|i: int| 0 <= i < urls@.len() ==> #[trigger] peers@[i]@ == urls@[i]@,
        addrs_of(peers@) == addrs_of_urls(urls@),
{
    let mut peers: Vec<String> = Vec::new();
    let mut i: usize = 0;
    while i < urls.len()
        invariant
            0 <= i <= urls@.len(),
            peers@.len() == i,
            forall|j: int| 0 <= j < i ==> #[trigger] peers@[j]@ == urls@[j]@,
        decreases urls@.len() - i,
    {
        peers.push(urls[i].to_owned());
        i += 1;
    }
    assert(addrs_of(peers@) =~= addrs_of_urls(urls@));
    peers
}

/// What the handles of one client share.
#[derive(Debug)]
pub struct Inner {
    channel_manager: ChannelManager,
    peers: Arc<parking_lot::RwLock<Vec<String>>>,
    load_balance: Loadbalancer,
    compression: Compression,
}

impl Default for Inner {
    fn default() -> (inner: Inner)
        ensures
            inner.spec_load_balance() == Loadbalancer::Random(crate::load_balance::Random),
            inner.spec_compression() == Compression::Gzip,
            inner.spec_channel_manager().is_plain_default(),
            inner.spec_first_peers().len() == 0,
    {
        Inner {
            channel_manager: ChannelManager::new(),
            peers: Arc::new(new_peers_lock(Vec::new())),
            load_balance: Loadbalancer::Random(crate::load_balance::Random),
            compression: Compression::Gzip,
        }
    }
}

impl Inner {
    pub closed spec fn spec_channel_manager(&self) -> ChannelManager {
        self.channel_manager
    }

    /// The addresses of the peers that the client was made with, in order.
    /// They are its peers until [`Inner::set_peers`] puts others in their
    /// place.
    pub closed spec fn spec_first_peers(&self) -> Seq<Seq<char>> {
        peers_made_with(*self.peers)
    }

    pub closed spec fn spec_load_balance(&self) -> Loadbalancer {
        self.load_balance
    }

    pub closed spec fn spec_compression(&self) -> Compression {
        self.compression
    }

    #[verifier::when_used_as_spec(spec_load_balance)]
    pub fn load_balance(&self) -> (load_balance: Loadbalancer)
        ensures
            load_balance == self.spec_load_balance(),
    {
        self.load_balance
    }

    #[verifier::when_used_as_spec(spec_compression)]
    pub fn compression(&self) -> (compression: Compression)
        ensures
            compression == self.spec_compression(),
    {
        self.compression
    }

    pub fn channel_manager(&self) -> (channel_manager: &ChannelManager)
        ensures
            *channel_manager == self.spec_channel_manager(),
    {
        &self.channel_manager
    }

    /// Puts `peers` in the place of the peers known so far, all at once.
    pub fn set_peers(&self, peers: Vec<String>) {
        write_peers(&self.peers, peers);
    }

    /// The peers known now.
    pub fn peers(&self) -> (peers: Vec<String>) {
        read_peers(&self.peers)
    }

    /// Selects a peer among those known now. What is selected among a list
    /// that was read is stated by [`Inner::select_among`].
    pub fn get_peer(&self) -> (peer: Option<String>) {
        let peers = read_peers(&self.peers);
        self.select_among(&peers)
    }

    /// Selects a peer among `peers` by the policy of this client: nothing for
    /// the empty list, and a member of the list otherwise.
    pub fn select_among(&self, peers: &Vec<String>) -> (peer: Option<String>)
        ensures
            peer is None <==> peers@.len() == 0,
            peer matches Some(chosen) ==> exists|i: int|
                0 <= i < peers@.len() && peers@[i]@ == chosen@,
    {
        match self.load_balance.get_peer(peers.as_slice()) {
            Some(chosen) => Some(chosen.clone()),
            None => None,
        }
    }

    /// What it takes to talk to the database at `addr`.
    pub fn database_client_at(&self, addr: String) -> (client: DatabaseClient)
        ensures
            client.addr@ == addr@,
            client.uri@ == self.spec_channel_manager().spec_scheme() + addr@,
            client.max_decoding_message_size == MAX_MESSAGE_SIZE,
            client.accept_compressed@ == accepted_encodings(),
            client.send_compressed == self.spec_compression().spec_encoding(),
    {
        let uri = self.channel_manager.endpoint_uri(addr.as_str());
        let mut accept_compressed: Vec<CompressionEncoding> = Vec::new();
        accept_compressed.push(CompressionEncoding::Gzip);
        accept_compressed.push(CompressionEncoding::Zstd);
        DatabaseClient {
            addr,
            uri,
            max_decoding_message_size: MAX_MESSAGE_SIZE,
            accept_compressed,
            send_compressed: self.compression.encoding(),
        }
    }
}

/// The text of the failure to find a peer.
pub open spec fn no_peer_message() -> Seq<char> {
    "No available peer found"@
}

/// Sets the parts of an [`Inner`] one by one. A part that was not set takes
/// its default.
#[derive(Default)]
pub struct InnerBuilder {
    channel_manager: Option<ChannelManager>,
    peers: Option<Vec<String>>,
    load_balance: Option<Loadbalancer>,
    compression: Option<Compression>,
}

impl InnerBuilder {
    pub closed spec fn spec_channel_manager(&self) -> Option<ChannelManager> {
        self.channel_manager
    }

    pub closed spec fn spec_peers(&self) -> Option<Vec<String>> {
        self.peers
    }

    pub closed spec fn spec_load_balance(&self) -> Option<Loadbalancer> {
        self.load_balance
    }

    pub closed spec fn spec_compression(&self) -> Option<Compression> {
        self.compression
    }

    /// A builder with no part set.
    pub fn new() -> (builder: InnerBuilder)
        ensures
            builder.spec_channel_manager() is None,
            builder.spec_peers() is None,
            builder.spec_load_balance() is None,
            builder.spec_compression() is None,
    {
        InnerBuilder { channel_manager: None, peers: None, load_balance: None, compression: None }
    }

    pub fn channel_manager(&mut self, channel_manager: ChannelManager) -> (builder: &mut InnerBuilder)
        ensures
            builder.spec_channel_manager() == Some(channel_manager),
            builder.spec_peers() == old(self).spec_peers(),
            builder.spec_load_balance() == old(self).spec_load_balance(),
            builder.spec_compression() == old(self).spec_compression(),
            *final(self) == *final(builder),
    {
        self.channel_manager = Some(channel_manager);
        self
    }

    pub fn peers(&mut self, peers: Vec<String>) -> (builder: &mut InnerBuilder)
        ensures
            builder.spec_peers() == Some(peers),
            builder.spec_channel_manager() == old(self).spec_channel_manager(),
            builder.spec_load_balance() == old(self).spec_load_balance(),
            builder.spec_compression() == old(self).spec_compression(),
            *final(self) == *final(builder),
    {
        self.peers = Some(peers);
        self
    }

    pub fn load_balance(&mut self, load_balance: Loadbalancer) -> (builder: &mut InnerBuilder)
        ensures
            builder.spec_load_balance() == Some(load_balance),
            builder.spec_channel_manager() == old(self).spec_channel_manager(),
            builder.spec_peers() == old(self).spec_peers(),
            builder.spec_compression() == old(self).spec_compression(),
            *final(self) == *final(builder),
    {
        self.load_balance = Some(load_balance);
        self
    }

    pub fn compression(&mut self, compression: Compression) -> (builder: &mut InnerBuilder)
        ensures
            builder.spec_compression() == Some(compression),
            builder.spec_channel_manager() == old(self).spec_channel_manager(),
            builder.spec_peers() == old(self).spec_peers(),
            builder.spec_load_balance() == old(self).spec_load_balance(),
            *final(self) == *final(builder),
    {
        self.compression = Some(compression);
        self
    }

    /// The client state with the parts that were set. The peers go behind a
    /// lock of their own.
    pub fn build(&self) -> (inner: Inner)
        ensures
            inner.spec_load_balance() == match self.spec_load_balance() {
                Some(load_balance) => load_balance,
                None => Loadbalancer::Random(crate::load_balance::Random),
            },
            inner.spec_compression() == match self.spec_compression() {
                Some(compression) => compression,
                None => Compression::Gzip,
            },
            self.spec_channel_manager() matches Some(channel_manager)
                ==> inner.spec_channel_manager() == channel_manager,
            self.spec_channel_manager() is None ==> inner.spec_channel_manager().is_plain_default(),
            inner.spec_first_peers() == match self.spec_peers() {
                Some(peers) => addrs_of(peers@),
                None => Seq::<Seq<char>>::empty(),
            },
    {
        let channel_manager = match &self.channel_manager {
            Some(channel_manager) => channel_manager.clone(),
            None => ChannelManager::new(),
        };
        let peers = match &self.peers {
            Some(peers) => peers.clone(),
            None => Vec::new(),
        };
        let load_balance = match self.load_balance {
            Some(load_balance) => load_balance,
            None => Loadbalancer::Random(crate::load_balance::Random),
        };
        let compression = match self.compression {
            Some(compression) => compression,
            None => Compression::Gzip,
        };
        Inner {
            channel_manager,
            peers: Arc::new(new_peers_lock(peers)),
            load_balance,
            compression,
        }
    }
}

/// Sets the parts of a [`Client`] one by one.
pub struct ClientBuilder {
    channel_manager: ChannelManager,
    load_balance: Loadbalancer,
    compression: Compression,
    peers: Vec<String>,
}

impl Default for ClientBuilder {
    fn default() -> (builder: ClientBuilder)
        ensures
            builder.spec_channel_manager().is_plain_default(),
            builder.spec_load_balance() == Loadbalancer::Random(crate::load_balance::Random),
            builder.spec_compression() == Compression::Gzip,
            builder.spec_peers().len() == 0,
    {
        ClientBuilder {
            channel_manager: ChannelManager::new(),
            load_balance: Loadbalancer::Random(crate::load_balance::Random),
            compression: Compression::Gzip,
            peers: Vec::new(),
        }
    }
}

impl ClientBuilder {
    pub closed spec fn spec_channel_manager(&self) -> ChannelManager {
        self.channel_manager
    }

    pub closed spec fn spec_load_balance(&self) -> Loadbalancer {
        self.load_balance
    }

    pub closed spec fn spec_compression(&self) -> Compression {
        self.compression
    }

    /// The addresses of the peers, in order.
    pub closed spec fn spec_peers(&self) -> Seq<Seq<char>> {
        addrs_of(self.peers@)
    }

    pub fn channel_manager(self, channel_manager: ChannelManager) -> (builder: ClientBuilder)
        ensures
            builder.spec_channel_manager() == channel_manager,
            builder.spec_load_balance() == self.spec_load_balance(),
            builder.spec_compression() == self.spec_compression(),
            builder.spec_peers() == self.spec_peers(),
    {
        let mut builder = self;
        builder.channel_manager = channel_manager;
        builder
    }

    pub fn load_balance(self, load_balance: Loadbalancer) -> (builder: ClientBuilder)
        ensures
            builder.spec_load_balance() == load_balance,
            builder.spec_channel_manager() == self.spec_channel_manager(),
            builder.spec_compression() == self.spec_compression(),
            builder.spec_peers() == self.spec_peers(),
    {
        let mut builder = self;
        builder.load_balance = load_balance;
        builder
    }

    pub fn compression(self, compression: Compression) -> (builder: ClientBuilder)
        ensures
            builder.spec_compression() == compression,
            builder.spec_channel_manager() == self.spec_channel_manager(),
            builder.spec_load_balance() == self.spec_load_balance(),
            builder.spec_peers() == self.spec_peers(),
    {
        let mut builder = self;
        builder.compression = compression;
        builder
    }

    pub fn peers(self, peers: &[&str]) -> (builder: ClientBuilder)
        ensures
            builder.spec_peers() == addrs_of_urls(peers@),
            builder.spec_channel_manager() == self.spec_channel_manager(),
            builder.spec_load_balance() == self.spec_load_balance(),
            builder.spec_compression() == self.spec_compression(),
    {
        let mut builder = self;
        builder.peers = normalize_urls(peers);
        builder
    }

    /// The client with the parts that were set. Its peers are those of the
    /// builder, until [`Client::start`] replaces them.
    pub fn build(self) -> (client: Client)
        ensures
            client.spec_channel_manager() == self.spec_channel_manager(),
            client.spec_load_balance() == self.spec_load_balance(),
            client.spec_compression() == self.spec_compression(),
            client.spec_first_peers() == self.spec_peers(),
    {
        let inner = InnerBuilder::new()
            .channel_manager(self.channel_manager)
            .load_balance(self.load_balance)
            .compression(self.compression)
            .peers(self.peers)
            .build();
        Client { inner: Arc::new(inner) }
    }
}

/// A handle of a client. Its copies share the peers.
#[derive(Clone, Debug)]
pub struct Client {
    inner: Arc<Inner>,
}

impl Default for Client {
    fn default() -> (client: Client)
        ensures
            client.spec_channel_manager().is_plain_default(),
            client.spec_load_balance() == Loadbalancer::Random(crate::load_balance::Random),
            client.spec_compression() == Compression::Gzip,
            client.spec_first_peers().len() == 0,
    {
        Client { inner: Arc::new(Inner::default()) }
    }
}

impl Client {
    pub closed spec fn spec_channel_manager(&self) -> ChannelManager {
        self.inner.spec_channel_manager()
    }

    /// The addresses of the peers that the client was made with, in order.
    /// They are its peers until [`Client::start`] puts others in their place.
    pub closed spec fn spec_first_peers(&self) -> Seq<Seq<char>> {
        self.inner.spec_first_peers()
    }

    pub closed spec fn spec_load_balance(&self) -> Loadbalancer {
        self.inner.spec_load_balance()
    }

    pub closed spec fn spec_compression(&self) -> Compression {
        self.inner.spec_compression()
    }

    pub fn channel_manager(&self) -> (channel_manager: &ChannelManager)
        ensures
            *channel_manager == self.spec_channel_manager(),
    {
        self.inner.channel_manager()
    }

    #[verifier::when_used_as_spec(spec_load_balance)]
    pub fn load_balance(&self) -> (load_balance: Loadbalancer)
        ensures
            load_balance == self.spec_load_balance(),
    {
        self.inner.load_balance()
    }

    #[verifier::when_used_as_spec(spec_compression)]
    pub fn compression(&self) -> (compression: Compression)
        ensures
            compression == self.spec_compression(),
    {
        self.inner.compression()
    }

    /// A client of plaintext channels that knows no peer yet.
    pub fn new() -> (client: Client)
        ensures
            client.spec_channel_manager().is_plain_default(),
            client.spec_load_balance() == Loadbalancer::Random(crate::load_balance::Random),
            client.spec_compression() == Compression::Gzip,
            client.spec_first_peers().len() == 0,
    {
        Client { inner: Arc::new(Inner::default()) }
    }

    /// A client with the given channel settings that knows no peer yet.
    pub fn with_manager(channel_manager: ChannelManager) -> (client: Client)
        ensures
            client.spec_channel_manager() == channel_manager,
            client.spec_load_balance() == Loadbalancer::Random(crate::load_balance::Random),
            client.spec_compression() == Compression::Gzip,
            client.spec_first_peers().len() == 0,
    {
        let inner = InnerBuilder::new().channel_manager(channel_manager).build();
        Client { inner: Arc::new(inner) }
    }

    /// A client of plaintext channels to the peers at `urls`.
    pub fn with_urls(urls: &[&str]) -> (client: Client)
        ensures
            client.spec_channel_manager().is_plain_default(),
            client.spec_load_balance() == Loadbalancer::Random(crate::load_balance::Random),
            client.spec_compression() == Compression::Gzip,
            client.spec_first_peers() == addrs_of_urls(urls@),
    {
        ClientBuilder::default().peers(urls).build()
    }

    /// A client with the given channel settings to the peers at `urls`.
    pub fn with_manager_and_urls(channel_manager: ChannelManager, urls: &[&str]) -> (client:
        Client)
        ensures
            client.spec_channel_manager() == channel_manager,
            client.spec_load_balance() == Loadbalancer::Random(crate::load_balance::Random),
            client.spec_compression() == Compression::Gzip,
            client.spec_first_peers() == addrs_of_urls(urls@),
    {
        let inner = InnerBuilder::new()
            .channel_manager(channel_manager)
            .peers(normalize_urls(urls))
            .build();
        Client { inner: Arc::new(inner) }
    }

    /// Puts the peers at `urls` in the place of those known so far.
    pub fn start(&self, urls: &[&str]) {
        let urls: Vec<String> = normalize_urls(urls);
        self.inner.set_peers(urls);
    }

    /// The peers known now.
    pub fn peers(&self) -> (peers: Vec<String>) {
        self.inner.peers()
    }

    /// Selects a peer among those known now.
    pub fn get_peer(&self) -> (peer: Option<String>) {
        self.inner.get_peer()
    }

    /// Whether `client` is what it takes to talk to the database at the peer
    /// `addr` with the settings of this client: the address of the channel,
    /// the ceiling on the size of a message, the encodings accepted and the
    /// encoding sent.
    pub open spec fn is_client_at(&self, client: DatabaseClient, addr: Seq<char>) -> bool {
        &&& client.addr@ == addr
        &&& client.uri@ == self.spec_channel_manager().spec_scheme() + addr
        &&& client.max_decoding_message_size == MAX_MESSAGE_SIZE
        &&& client.accept_compressed@ == accepted_encodings()
        &&& client.send_compressed == self.spec_compression().spec_encoding()
    }

    /// What it takes to talk to the database at the peer that was selected,
    /// or the failure that stands for having found none.
    pub fn database_client_for(&self, peer: Option<String>) -> (made: Result<
        DatabaseClient,
        Error,
    >)
        ensures
            made is Ok <==> peer is Some,
            made matches Ok(client) ==> self.is_client_at(client, peer->Some_0@),
            made matches Err(error) ==> error.is_illegal_state(no_peer_message()),
    {
        match peer {
            Some(addr) => Ok(self.inner.database_client_at(addr)),
            None => Err(
                Error::IllegalGrpcClientState { err_msg: "No available peer found".to_owned() },
            ),
        }
    }

    /// Selects a peer among `peers` and says what it takes to talk to the
    /// database there. Fails if and only if there is no peer; what is made
    /// otherwise is for one of them.
    pub fn database_client_among(&self, peers: &Vec<String>) -> (made: Result<
        DatabaseClient,
        Error,
    >)
        ensures
            made is Err <==> peers@.len() == 0,
            made matches Ok(client) ==> self.is_client_at(client, client.addr@),
            made matches Ok(client) ==> addrs_of(peers@).contains(client.addr@),
            made matches Err(error) ==> error.is_illegal_state(no_peer_message()),
    {
        let peer = self.inner.select_among(peers);
        proof {
            if peer is Some {
                let i = choose|i: int| 0 <= i < peers@.len() && peers@[i]@ == peer->Some_0@;
                assert(addrs_of(peers@)[i] == peer->Some_0@);
            }
        }
        self.database_client_for(peer)
    }

    /// Selects a peer among those known now and says what it takes to talk to
    /// the database there. Fails only where no peer was found: see
    /// [`Client::database_client_among`].
    pub fn make_database_client(&self) -> (made: Result<DatabaseClient, Error>)
        ensures
            made matches Ok(client) ==> self.is_client_at(client, client.addr@),
            made matches Err(error) ==> error.is_illegal_state(no_peer_message()),
    {
        let peers = self.inner.peers();
        self.database_client_among(&peers)
    }
}

} // verus!
