use vstd::prelude::*;

verus! {

/// The size of a loaded texture, in pixels.
#[derive(Clone, Copy, Debug, PartialEq, Eq, Structural)]
pub struct TextureSize {
    pub width: u32,
    pub height: u32,
}

/// What an attempt to join the texture-loading task gave.
#[derive(Clone, Copy, Debug, PartialEq, Eq, Structural)]
pub enum TryJoinTaskResult {
    /// The task has not finished.
    NotJoined,
    /// The task finished with this size.
    Joined(TextureSize),
    /// The task's result was taken already (the task probably failed).
    JoinedResultTaken,
}

/// Where loading the background texture stands.
#[derive(Clone, Copy, Debug, PartialEq, Eq, Structural)]
pub enum LoadTextureResult {
    Pending,
    Done(TextureSize),
}

/// One poll of the texture size: a known size is kept; while pending, a
/// joined task gives its size, which is then kept; otherwise none yet.
pub open spec fn poll_step(state: LoadTextureResult, join: TryJoinTaskResult) -> (LoadTextureResult, Option<TextureSize>) {
    match state {
        LoadTextureResult::Done(size) => (state, Some(size)),
        LoadTextureResult::Pending => match join {
            TryJoinTaskResult::Joined(size) => (LoadTextureResult::Done(size), Some(size)),
            _ => (state, None),
        },
    }
}

/// Polls for the texture size; `join` is what joining the loading task
/// gives now (it is only looked at while pending). See [`poll_step`].
pub fn poll_texture_dimensions(state: &mut LoadTextureResult, join: TryJoinTaskResult) -> (size: Option<TextureSize>)
    ensures
        (*final(state), size) == poll_step(*old(state), join),
{
    match *state {
        LoadTextureResult::Done(size) => Some(size),
        LoadTextureResult::Pending => match join {
            TryJoinTaskResult::Joined(size) => {
                *state = LoadTextureResult::Done(size);
                Some(size)
            },
            _ => None,
        },
    }
}

/// While loading is pending, a joined task gives its size, which is kept
/// from then on; an unfinished or failed task gives no size and loading
/// stays pending.
pub proof fn law_pending_poll(size: TextureSize)
    ensures
        poll_step(LoadTextureResult::Pending, TryJoinTaskResult::Joined(size)) == (
            LoadTextureResult::Done(size),
            Some(size),
        ),
        poll_step(LoadTextureResult::Pending, TryJoinTaskResult::NotJoined) == (LoadTextureResult::Pending, None::<TextureSize>),
        poll_step(LoadTextureResult::Pending, TryJoinTaskResult::JoinedResultTaken) == (
            LoadTextureResult::Pending,
            None::<TextureSize>,
        ),
{
}

/// Once known, the texture size never changes, whatever later joins give.
pub proof fn law_size_is_kept(size: TextureSize, join: TryJoinTaskResult)
    ensures
        poll_step(LoadTextureResult::Done(size), join) == (LoadTextureResult::Done(size), Some(size)),
{
}

} // verus!
