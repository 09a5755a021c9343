//! Opaque foreign engine objects.  The host engine hands these out and takes
//! them back without ever exposing their layout; the overlay only ever holds
//! their addresses, so each type here is an empty marker that names what such
//! an address stands for.

use vstd::prelude::*;

verus! {

/// A loaded render model.
pub struct ModelT {}

/// A text message of the host's client message system.
pub struct ClientTextMessage {}

/// A closed-caption sentence.
pub struct CSentence {}

/// An audio source.
pub struct CAudioSource {}

/// The host's spatial query interface.
pub struct ISpatialQuery {}

/// The host's material system interface.
pub struct IMaterialSystem {}

/// Network channel statistics.
pub struct INetChannelInfo {}

/// The host's hierarchical key/value store.
pub struct KeyValues {}

/// The achievement manager interface.
pub struct IAchievementMgr {}

/// Aggregated game statistics.
pub struct CGamestatsData {}

/// An input context on the host's input stack.
pub struct InputContextT {}

/// The address of an [`InputContextT`] on the host's input stack.  The
/// context is created once and then only used under the overlay's lock, so
/// the bare address may cross threads.
pub struct SendableContext(pub usize);

} // verus!
