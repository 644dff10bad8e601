use crate::heartbeat::config::names_of;
use crate::heartbeat::sender::{
    contains_name, lemma_resolve_targets_complete, lemma_resolve_targets_no_duplicates,
    resolve_targets,
};
use vstd::prelude::*;

verus! {

/// What happens to a message for one of its target clients.
#[derive(Debug, Clone)]
pub enum Delivery {
    /// Hand the message to this client.
    Send(String),
    /// No client has this name: report it.
    UnknownTarget(String),
}

/// A delivery with the target's name as text.
pub ghost enum DeliveryView {
    Send(Seq<char>),
    UnknownTarget(Seq<char>),
}

impl View for Delivery {
    type V = DeliveryView;

    open spec fn view(&self) -> DeliveryView {
        match self {
            Delivery::Send(t) => DeliveryView::Send(t@),
            Delivery::UnknownTarget(t) => DeliveryView::UnknownTarget(t@),
        }
    }
}

/// The deliveries of a message for `targets`, in order, when messaging is active: a send for each
/// target that names a client, a report for each that does not; nothing when messaging is off.
pub open spec fn deliveries_for(
    active: bool,
    clients: Seq<Seq<char>>,
    targets: Seq<Seq<char>>,
) -> Seq<DeliveryView>
    decreases targets.len(),
{
    if !active || targets.len() == 0 {
        Seq::empty()
    } else {
        let prev = deliveries_for(active, clients, targets.drop_last());
        let t = targets.last();
        prev.push(
            if clients.contains(t) {
                DeliveryView::Send(t)
            } else {
                DeliveryView::UnknownTarget(t)
            },
        )
    }
}

/// The views of a list of deliveries, in order.
pub open spec fn delivery_views(d: Seq<Delivery>) -> Seq<DeliveryView> {
    d.map_values(|x: Delivery| x@)
}

/// The routing core of a client broker: which clients exist and whether messages still go out.
pub struct ClientBroker {
    messaging_active: bool,
    client_names: Vec<String>,
}

impl ClientBroker {
    /// Whether messages are still handed to clients.
    pub closed spec fn active(&self) -> bool {
        self.messaging_active
    }

    /// The names of the clients, each once.
    pub closed spec fn clients(&self) -> Seq<Seq<char>> {
        names_of(self.client_names@)
    }

    /// A broker for one client per connection name (a repeated name makes one client), with
    /// messaging active.
    pub fn init(connection_names: &[String]) -> (b: ClientBroker)
        ensures
            b.active(),
            b.clients() == resolve_targets(names_of(connection_names@), names_of(connection_names@)),
            b.clients().no_duplicates(),
            forall|n: Seq<char>|
                #![trigger b.clients().contains(n)]
                b.clients().contains(n) <==> names_of(connection_names@).contains(n),
    {
        let ghost all = names_of(connection_names@);
        let mut names: Vec<String> = Vec::new();
        let mut i: usize = 0;
        while i < connection_names.len()
            invariant
                0 <= i <= connection_names@.len(),
                all == names_of(connection_names@),
                names_of(names@) == resolve_targets(all.take(i as int), all),
            decreases connection_names@.len() - i,
        {
            let ghost prev = names_of(names@);
            assert(all.take(i as int + 1).drop_last() =~= all.take(i as int));
            assert(all.take(i as int + 1).last() == connection_names@[i as int]@);
            assert(all.contains(connection_names@[i as int]@)) by {
                assert(all[i as int] == connection_names@[i as int]@);
            }
            let n = &connection_names[i];
            if !contains_name(names.as_slice(), n) {
                names.push(n.clone());
                assert(names_of(names@) =~= prev.push(n@));
            }
            i = i + 1;
        }
        assert(all.take(connection_names@.len() as int) =~= all);
        proof {
            lemma_resolve_targets_no_duplicates(all, all);
            lemma_resolve_targets_complete(all, all);
        }
        ClientBroker { messaging_active: true, client_names: names }
    }

    /// The clients, each once.
    pub fn client_names(&self) -> (names: &Vec<String>)
        ensures
            names_of(names@) == self.clients(),
    {
        &self.client_names
    }

    /// Whether messages are still handed to clients.
    pub fn is_messaging_active(&self) -> (b: bool)
        ensures
            b == self.active(),
    {
        self.messaging_active
    }

    /// The deliveries of a message addressed to `targets` (see `deliveries_for`).
    pub fn handle_message(&self, targets: &[String]) -> (d: Vec<Delivery>)
        ensures
            delivery_views(d@) == deliveries_for(self.active(), self.clients(), names_of(targets@)),
    {
        let ghost tv = names_of(targets@);
        let mut d: Vec<Delivery> = Vec::new();
        if !self.messaging_active {
            assert(delivery_views(d@) =~= Seq::<DeliveryView>::empty());
            return d;
        }
        let mut i: usize = 0;
        while i < targets.len()
            invariant
                0 <= i <= targets@.len(),
                self.messaging_active,
                tv == names_of(targets@),
                delivery_views(d@) == deliveries_for(true, self.clients(), tv.take(i as int)),
            decreases targets@.len() - i,
        {
            let ghost prev = delivery_views(d@);
            assert(tv.take(i as int + 1).drop_last() =~= tv.take(i as int));
            assert(tv.take(i as int + 1).last() == targets@[i as int]@);
            let t = &targets[i];
            if contains_name(self.client_names.as_slice(), t) {
                d.push(Delivery::Send(t.clone()));
            } else {
                d.push(Delivery::UnknownTarget(t.clone()));
            }
            assert(delivery_views(d@) =~= deliveries_for(
                true,
                self.clients(),
                tv.take(i as int + 1),
            ));
            i = i + 1;
        }
        assert(tv.take(targets@.len() as int) =~= tv);
        d
    }

    /// The clients a system shutdown is forwarded to: all of them, whether or not messaging is
    /// active. Afterwards messaging is off.
    pub fn forward_shutdown(&mut self) -> (recipients: Vec<String>)
        ensures
            names_of(recipients@) == old(self).clients(),
            !final(self).active(),
            final(self).clients() == old(self).clients(),
    {
        let recipients = crate::heartbeat::config::copy_names(&self.client_names);
        self.messaging_active = false;
        recipients
    }

    /// All clients have finished: the broker holds none.
    pub fn shutdown(&mut self)
        ensures
            final(self).clients() == Seq::<Seq<char>>::empty(),
            final(self).active() == old(self).active(),
    {
        self.client_names.clear();
        assert(names_of(self.client_names@) =~= Seq::<Seq<char>>::empty());
    }
}

/// Once a shutdown has been forwarded, no later message reaches any client.
pub proof fn lemma_no_delivery_after_forward_shutdown(
    clients: Seq<Seq<char>>,
    targets: Seq<Seq<char>>,
)
    ensures
        deliveries_for(false, clients, targets) == Seq::<DeliveryView>::empty(),
{
}

/// While messaging is active, every target gets exactly one delivery, in the order given:
/// a send when it names a client, a report when it does not.
pub proof fn lemma_one_delivery_per_target(clients: Seq<Seq<char>>, targets: Seq<Seq<char>>)
    ensures
        deliveries_for(true, clients, targets).len() == targets.len(),
        forall|i: int|
            0 <= i < targets.len() ==> #[trigger] deliveries_for(true, clients, targets)[i] == (
            if clients.contains(targets[i]) {
                DeliveryView::Send(targets[i])
            } else {
                DeliveryView::UnknownTarget(targets[i])
            }),
    decreases targets.len(),
{
    if targets.len() > 0 {
        lemma_one_delivery_per_target(clients, targets.drop_last());
        assert forall|i: int| 0 <= i < targets.len() - 1 implies targets.drop_last()[i]
            == targets[i] by {}
    }
}

} // verus!
