use crate::heartbeat::config::names_of;
use vstd::prelude::*;

verus! {

/// A message a component sends out, with the names of the clients it is for.
#[derive(Debug, Clone)]
pub struct ClientBrokerMessage<T> {
    pub target_clients: Vec<String>,
    pub message: T,
}

impl<T> ClientBrokerMessage<T> {
    /// A message for the clients named in `target_clients`, in that order.
    pub fn new(target_clients: Vec<&str>, message: T) -> (m: Self)
        ensures
            names_of(m.target_clients@) == target_clients@.map_values(|s: &str| s@),
            m.message == message,
    {
        let mut targets: Vec<String> = Vec::new();
        let mut i: usize = 0;
        while i < target_clients.len()
            invariant
                0 <= i <= target_clients@.len(),
                targets@.len() == i,
                forall|j: int| 0 <= j < i ==> #[trigger] targets@[j]@ == target_clients@[j]@,
            decreases target_clients@.len() - i,
        {
            targets.push(target_clients[i].to_owned());
            i = i + 1;
        }
        assert(names_of(targets@) =~= target_clients@.map_values(|s: &str| s@));
        ClientBrokerMessage { target_clients: targets, message }
    }
}

} // verus!
