use vstd::prelude::*;

verus! {

/// mio's event loop channel handle, carried through opaquely.
#[verifier::external_type_specification]
#[verifier::external_body]
#[verifier::reject_recursive_types(M)]
pub struct ExMioSender<M: Send>(mio::Sender<M>);

/// std's I/O error, carried through opaquely in [`crate::client::SendError::Io`].
#[verifier::external_type_specification]
#[verifier::external_body]
pub struct ExIoError(std::io::Error);

/// mio's `Sender::clone`: a second handle on the same event loop channel.
/// Nothing is claimed of the result: the channel is shared state that no
/// specification here models.
pub assume_specification<M: Send>[ <mio::Sender<M> as std::clone::Clone>::clone ](
    sender: &mio::Sender<M>,
) -> mio::Sender<M>;

} // verus!
