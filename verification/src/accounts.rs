//! The account directory: seller and buyer records by id.

use vstd::prelude::*;
use crate::ids::{is_first_vacant, random_id, vacant_id};
use crate::model::{new_buyer, new_seller, Buyer, BuyerView, Feedback, Record, Seller, SellerView};
use crate::table::{
    lists_entries, table_entries, table_get, table_insert, table_new, table_snapshot, Table,
};

verus! {

/// Whether `sellers` can be what a directory holds: finitely many sellers,
/// each one filed under its own id.
pub open spec fn sellers_filed_by_id(sellers: Map<u128, SellerView>) -> bool {
    &&& sellers.dom().finite()
    &&& forall|id: u128| #[trigger] sellers.contains_key(id) ==> sellers[id].seller_id == id
}

/// Whether `buyers` can be what a directory holds: finitely many buyers, each
/// one filed under its own id.
pub open spec fn buyers_filed_by_id(buyers: Map<u128, BuyerView>) -> bool {
    &&& buyers.dom().finite()
    &&& forall|id: u128| #[trigger] buyers.contains_key(id) ==> buyers[id].buyer_id == id
}

/// Seller and buyer accounts. The two collections have separate id spaces.
pub struct AccountDirectory {
    sellers: Table,
    buyers: Table,
}

/// Whether every entry is a seller filed under its own id.
spec fn holds_sellers(entries: Map<u128, Record>) -> bool {
    &&& entries.dom().finite()
    &&& forall|k: u128| #[trigger]
        entries.contains_key(k) ==> entries[k] is Seller && entries[k]->Seller_0.seller_id == k
}

/// Whether every entry is a buyer filed under its own id.
spec fn holds_buyers(entries: Map<u128, Record>) -> bool {
    &&& entries.dom().finite()
    &&& forall|k: u128| #[trigger]
        entries.contains_key(k) ==> entries[k] is Buyer && entries[k]->Buyer_0.buyer_id == k
}

spec fn sellers_in(entries: Map<u128, Record>) -> Map<u128, SellerView> {
    Map::new(|k: u128| entries.contains_key(k), |k: u128| entries[k]->Seller_0@)
}

spec fn buyers_in(entries: Map<u128, Record>) -> Map<u128, BuyerView> {
    Map::new(|k: u128| entries.contains_key(k), |k: u128| entries[k]->Buyer_0@)
}

impl AccountDirectory {
    #[verifier::type_invariant]
    spec fn inv(&self) -> bool {
        &&& holds_sellers(table_entries(self.sellers))
        &&& holds_buyers(table_entries(self.buyers))
    }

    /// The seller accounts, by id.
    pub closed spec fn sellers(&self) -> Map<u128, SellerView> {
        if holds_sellers(table_entries(self.sellers)) {
            sellers_in(table_entries(self.sellers))
        } else {
            Map::empty()
        }
    }

    /// The buyer accounts, by id.
    pub closed spec fn buyers(&self) -> Map<u128, BuyerView> {
        if holds_buyers(table_entries(self.buyers)) {
            buyers_in(table_entries(self.buyers))
        } else {
            Map::empty()
        }
    }

    /// A directory holds finitely many accounts, and each one under its own
    /// id: within a collection no two accounts share an id.
    pub proof fn lemma_accounts_filed_by_id(&self)
        ensures
            sellers_filed_by_id(self.sellers()),
            buyers_filed_by_id(self.buyers()),
    {
        if holds_sellers(table_entries(self.sellers)) {
            assert(self.sellers().dom() =~= table_entries(self.sellers).dom());
        }
        if holds_buyers(table_entries(self.buyers)) {
            assert(self.buyers().dom() =~= table_entries(self.buyers).dom());
        }
    }

    /// A directory without accounts.
    pub fn new() -> (directory: AccountDirectory)
        ensures
            forall|id: u128| !directory.sellers().contains_key(id),
            forall|id: u128| !directory.buyers().contains_key(id),
    {
        AccountDirectory { sellers: table_new(), buyers: table_new() }
    }

    /// Creates a seller under the first id from `candidate` on that no seller
    /// has, with nothing sold and no feedback, and returns that id.
    pub fn create_seller_with(
        &mut self,
        candidate: u128,
        name: String,
        password: String,
    ) -> (id: u128)
        ensures
            is_first_vacant(old(self).sellers().dom(), candidate, id),
            !old(self).sellers().contains_key(id),
            final(self).sellers() == old(self).sellers().insert(
                id,
                new_seller(id, name@, password@),
            ),
            final(self).buyers() == old(self).buyers(),
    {
        proof {
            use_type_invariant(&*self);
            assert(self.sellers().dom() =~= table_entries(self.sellers).dom());
        }
        let id: u128 = vacant_id(&self.sellers, candidate);
        let seller = Seller {
            seller_id: id,
            seller_name: name,
            feedback: Feedback { thumbs_up: 0, thumbs_down: 0 },
            items_sold: 0,
            password,
        };
        table_insert(&mut self.sellers, id, Record::Seller(seller));
        proof {
            assert(self.sellers() =~= old(self).sellers().insert(
                id,
                new_seller(id, name@, password@),
            ));
        }
        id
    }

    /// Creates a seller under an id that no seller has, and returns that id.
    pub fn create_seller(&mut self, name: String, password: String) -> (id: u128)
        ensures
            !old(self).sellers().contains_key(id),
            final(self).sellers() == old(self).sellers().insert(
                id,
                new_seller(id, name@, password@),
            ),
            final(self).buyers() == old(self).buyers(),
    {
        let candidate: u128 = random_id();
        self.create_seller_with(candidate, name, password)
    }

    /// Creates a buyer under the first id from `candidate` on that no buyer
    /// has, with nothing purchased, and returns that id.
    pub fn create_buyer_with(
        &mut self,
        candidate: u128,
        name: String,
        password: String,
    ) -> (id: u128)
        ensures
            is_first_vacant(old(self).buyers().dom(), candidate, id),
            !old(self).buyers().contains_key(id),
            final(self).buyers() == old(self).buyers().insert(
                id,
                new_buyer(id, name@, password@),
            ),
            final(self).sellers() == old(self).sellers(),
    {
        proof {
            use_type_invariant(&*self);
            assert(self.buyers().dom() =~= table_entries(self.buyers).dom());
        }
        let id: u128 = vacant_id(&self.buyers, candidate);
        let buyer = Buyer { buyer_id: id, buyer_name: name, items_purchased: 0, password };
        table_insert(&mut self.buyers, id, Record::Buyer(buyer));
        proof {
            assert(self.buyers() =~= old(self).buyers().insert(
                id,
                new_buyer(id, name@, password@),
            ));
        }
        id
    }

    /// Creates a buyer under an id that no buyer has, and returns that id.
    pub fn create_buyer(&mut self, name: String, password: String) -> (id: u128)
        ensures
            !old(self).buyers().contains_key(id),
            final(self).buyers() == old(self).buyers().insert(id, new_buyer(id, name@, password@)),
            final(self).sellers() == old(self).sellers(),
    {
        let candidate: u128 = random_id();
        self.create_buyer_with(candidate, name, password)
    }

    /// The seller with this id, if there is one.
    pub fn get_seller_by_id(&self, id: u128) -> (found: Option<Seller>)
        ensures
            (match found {
                Some(seller) => self.sellers().contains_key(id) && seller@ == self.sellers()[id]
                    && seller.seller_id == id,
                None => !self.sellers().contains_key(id),
            }),
    {
        proof {
            use_type_invariant(self);
        }
        match table_get(&self.sellers, id) {
            Some(Record::Seller(seller)) => Some(seller),
            _ => None,
        }
    }

    /// The buyer with this id, if there is one.
    pub fn get_buyer_by_id(&self, id: u128) -> (found: Option<Buyer>)
        ensures
            (match found {
                Some(buyer) => self.buyers().contains_key(id) && buyer@ == self.buyers()[id]
                    && buyer.buyer_id == id,
                None => !self.buyers().contains_key(id),
            }),
    {
        proof {
            use_type_invariant(self);
        }
        match table_get(&self.buyers, id) {
            Some(Record::Buyer(buyer)) => Some(buyer),
            _ => None,
        }
    }

    /// Some seller with this name, if there is one. Names need not be unique:
    /// which of several sellers of one name is returned is left open.
    pub fn get_seller_by_name(&self, name: &String) -> (found: Option<Seller>)
        ensures
            (match found {
                Some(seller) => self.sellers().contains_key(seller.seller_id)
                    && self.sellers()[seller.seller_id] == seller@ && seller.seller_name@
                    == name@,
                None => forall|k: u128|
                    self.sellers().contains_key(k) ==> self.sellers()[k].seller_name != name@,
            }),
    {
        proof {
            use_type_invariant(self);
        }
        let all = table_snapshot(&self.sellers);
        let mut i: usize = 0;
        while i < all.len()
            invariant
                i <= all.len(),
                lists_entries(all@, table_entries(self.sellers)),
                holds_sellers(table_entries(self.sellers)),
                forall|j: int| 0 <= j < i ==> (#[trigger] all[j]).1->Seller_0.seller_name@ != name@,
            decreases all.len() - i,
        {
            proof {
                assert(table_entries(self.sellers).contains_key(all[i as int].0));
            }
            if let Record::Seller(seller) = &all[i].1 {
                if seller.seller_name == *name {
                    return Some(seller.clone());
                }
            }
            i = i + 1;
        }
        proof {
            assert forall|k: u128| self.sellers().contains_key(k) implies self.sellers()[k].seller_name
                != name@ by {
                let j: int = choose|j: int| 0 <= j < all.len() && #[trigger] all[j].0 == k;
                assert(all[j].1 == table_entries(self.sellers)[k]);
            }
        }
        None
    }

    /// Some buyer with this name, if there is one. Names need not be unique:
    /// which of several buyers of one name is returned is left open.
    pub fn get_buyer_by_name(&self, name: &String) -> (found: Option<Buyer>)
        ensures
            (match found {
                Some(buyer) => self.buyers().contains_key(buyer.buyer_id)
                    && self.buyers()[buyer.buyer_id] == buyer@ && buyer.buyer_name@ == name@,
                None => forall|k: u128|
                    self.buyers().contains_key(k) ==> self.buyers()[k].buyer_name != name@,
            }),
    {
        proof {
            use_type_invariant(self);
        }
        let all = table_snapshot(&self.buyers);
        let mut i: usize = 0;
        while i < all.len()
            invariant
                i <= all.len(),
                lists_entries(all@, table_entries(self.buyers)),
                holds_buyers(table_entries(self.buyers)),
                forall|j: int| 0 <= j < i ==> (#[trigger] all[j]).1->Buyer_0.buyer_name@ != name@,
            decreases all.len() - i,
        {
            proof {
                assert(table_entries(self.buyers).contains_key(all[i as int].0));
            }
            if let Record::Buyer(buyer) = &all[i].1 {
                if buyer.buyer_name == *name {
                    return Some(buyer.clone());
                }
            }
            i = i + 1;
        }
        proof {
            assert forall|k: u128| self.buyers().contains_key(k) implies self.buyers()[k].buyer_name
                != name@ by {
                let j: int = choose|j: int| 0 <= j < all.len() && #[trigger] all[j].0 == k;
                assert(all[j].1 == table_entries(self.buyers)[k]);
            }
        }
        None
    }

    /// Files `seller` under its id, in place of the seller that had this id,
    /// if any.
    pub fn update_seller(&mut self, seller: Seller)
        ensures
            final(self).sellers() == old(self).sellers().insert(seller.seller_id, seller@),
            final(self).buyers() == old(self).buyers(),
    {
        proof {
            use_type_invariant(&*self);
        }
        table_insert(&mut self.sellers, seller.seller_id, Record::Seller(seller));
        proof {
            assert(self.sellers() =~= old(self).sellers().insert(seller.seller_id, seller@));
        }
    }

    /// Files `buyer` under its id, in place of the buyer that had this id, if
    /// any.
    pub fn update_buyer(&mut self, buyer: Buyer)
        ensures
            final(self).buyers() == old(self).buyers().insert(buyer.buyer_id, buyer@),
            final(self).sellers() == old(self).sellers(),
    {
        proof {
            use_type_invariant(&*self);
        }
        table_insert(&mut self.buyers, buyer.buyer_id, Record::Buyer(buyer));
        proof {
            assert(self.buyers() =~= old(self).buyers().insert(buyer.buyer_id, buyer@));
        }
    }
}

} // verus!
