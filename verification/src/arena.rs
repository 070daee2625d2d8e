//! The table of streams: a generational arena, reached through the few
//! operations that the backend needs. What is said of them here is taken
//! from the arena's source and believed, not proved.

use vstd::prelude::*;
use generational_arena::Arena;
use generational_arena::Index;
use crate::frame::VideoStreamHandle;
use crate::software::VideoStream;

verus! {

/// The arena of `generational_arena`. Nothing of its inside is visible here.
#[verifier::external_type_specification]
#[verifier::external_body]
#[verifier::reject_recursive_types(T)]
pub struct ExArena<T>(Arena<T>);

/// The streams that an arena holds, each under the handle made of the raw
/// parts of its index.
pub uninterp spec fn arena_streams(arena: Arena<VideoStream>) -> Map<VideoStreamHandle, VideoStream>;

/// `Arena::new`: a new arena holds nothing.
#[verifier::external_body]
pub(crate) fn arena_new() -> (arena: Arena<VideoStream>)
    ensures
        arena_streams(arena) == (Map::<VideoStreamHandle, VideoStream>::empty()),
{
    Arena::new()
}

/// `Arena::insert`: the stream is stored under an index that was not in use,
/// and every other entry stays.
#[verifier::external_body]
pub(crate) fn arena_insert(arena: &mut Arena<VideoStream>, stream: VideoStream) -> (handle:
    VideoStreamHandle)
    ensures
        !arena_streams(*old(arena)).contains_key(handle),
        arena_streams(*final(arena)) == arena_streams(*old(arena)).insert(handle, stream),
{
    let (index, generation) = arena.insert(stream).into_raw_parts();
    VideoStreamHandle { index, generation }
}

/// `Arena::get`: the stream under the index, if the index is in use. An
/// index that is not in use, whatever its parts, gives nothing.
#[verifier::external_body]
pub(crate) fn arena_get(arena: &Arena<VideoStream>, handle: VideoStreamHandle) -> (stream: Option<
    &VideoStream,
>)
    ensures
        stream is Some <==> arena_streams(*arena).contains_key(handle),
        stream matches Some(s) ==> *s == arena_streams(*arena)[handle],
{
    arena.get(Index::from_raw_parts(handle.index, handle.generation))
}

/// `Arena::get_mut`: the stream under the index, if the index is in use, to
/// be changed in place. Whatever it is changed to is then what the arena
/// holds under that index; every other entry stays. An index that is not in
/// use, whatever its parts, gives nothing and changes nothing.
#[verifier::external_body]
pub(crate) fn arena_get_mut(arena: &mut Arena<VideoStream>, handle: VideoStreamHandle) -> (stream:
    Option<&mut VideoStream>)
    ensures
        match stream {
            Some(s) => {
                &&& arena_streams(*old(arena)).contains_key(handle)
                &&& *s == arena_streams(*old(arena))[handle]
                &&& arena_streams(*final(arena)) == arena_streams(*old(arena)).insert(
                    handle,
                    *final(s),
                )
            },
            None => {
                &&& !arena_streams(*old(arena)).contains_key(handle)
                &&& arena_streams(*final(arena)) == arena_streams(*old(arena))
            },
        },
{
    arena.get_mut(Index::from_raw_parts(handle.index, handle.generation))
}

/// `Arena::len`: the number of entries in use.
#[verifier::external_body]
pub(crate) fn arena_len(arena: &Arena<VideoStream>) -> (count: usize)
    ensures
        count == arena_streams(*arena).len(),
{
    arena.len()
}

} // verus!
