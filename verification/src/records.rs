use vstd::prelude::*;
use crate::error::StoreError;
use crate::product::{Product, ProductPatch, ProductView};

verus! {

/// Whether no two of the items share a name.
pub open spec fn distinct_names(items: Seq<ProductView>) -> bool {
    forall|i: int, j: int| 0 <= i < j < items.len() ==> items[i].name != items[j].name
}

/// Whether one of the items bears the name.
pub open spec fn has_name(items: Seq<ProductView>, name: Seq<char>) -> bool {
    exists|i: int| 0 <= i < items.len() && #[trigger] items[i].name == name
}

/// The place of an item that bears the name, where there is one.
pub open spec fn place_of(items: Seq<ProductView>, name: Seq<char>) -> int {
    choose|i: int| 0 <= i < items.len() && #[trigger] items[i].name == name
}

/// The items after one more is added: the old ones and then the new one,
/// or `None` where one of the old ones bears its name.
pub open spec fn added(items: Seq<ProductView>, item: ProductView) -> Option<Seq<ProductView>> {
    if has_name(items, item.name) {
        None
    } else {
        Some(items.push(item))
    }
}

/// The store: products told apart by their names, in the order in which
/// they were added.
#[derive(Debug)]
pub struct Records {
    products: Vec<Product>,
}

impl View for Records {
    type V = Seq<ProductView>;

    closed spec fn view(&self) -> Seq<ProductView> {
        views(self.products@)
    }
}

/// The views of a sequence of products, each at its place.
pub open spec fn views(products: Seq<Product>) -> Seq<ProductView> {
    products.map_values(|p: Product| p@)
}

impl Records {
    /// The invariant of the store: no name occurs twice.
    pub open spec fn wf(&self) -> bool {
        distinct_names(self@)
    }

    /// A store that holds nothing.
    pub fn new() -> (r: Records)
        ensures
            r@ == Seq::<ProductView>::empty(),
            r.wf(),
    {
        let r = Records { products: Vec::new() };
        assert(r@ =~= Seq::<ProductView>::empty());
        r
    }

    /// How many products the store holds.
    pub fn len(&self) -> (r: usize)
        ensures
            r == self@.len(),
    {
        self.products.len()
    }

    /// Where the product of this name stands, if the store holds one.
    pub fn position(&self, name: &str) -> (r: Option<usize>)
        ensures
            match r {
                Some(i) => i < self@.len() && self@[i as int].name == name@ && forall|k: int|
                    0 <= k < i ==> self@[k].name != name@,
                None => !has_name(self@, name@),
            },
    {
        let key: String = name.to_owned();
        let mut i: usize = 0;
        while i < self.products.len()
            invariant
                i <= self.products.len(),
                key@ == name@,
                forall|k: int| 0 <= k < i ==> self@[k].name != name@,
            decreases self.products.len() - i,
        {
            if self.products[i].name == key {
                return Some(i);
            }
            i += 1;
        }
        None
    }

    /// Whether the store holds a product of this name.
    pub fn contains(&self, name: &str) -> (r: bool)
        ensures
            r == has_name(self@, name@),
    {
        self.position(name).is_some()
    }

    /// The names of the products, in the store's order.
    pub fn names(&self) -> (r: Vec<String>)
        ensures
            r@.len() == self@.len(),
            forall|i: int| 0 <= i < r@.len() ==> (#[trigger] r@[i])@ == self@[i].name,
    {
        let mut out: Vec<String> = Vec::new();
        let mut i: usize = 0;
        while i < self.products.len()
            invariant
                i <= self.products.len(),
                out@.len() == i,
                forall|k: int| 0 <= k < i ==> (#[trigger] out@[k])@ == self@[k].name,
            decreases self.products.len() - i,
        {
            out.push(self.products[i].name.clone());
            i += 1;
        }
        out
    }

    /// Builds a store from products in a row, adding one after the other.
    /// It fails at the first product whose name an earlier one bears, and
    /// names it.
    pub fn from_products(products: Vec<Product>) -> (r: Result<Records, StoreError>)
        ensures
            match r {
                Ok(store) => distinct_names(views(products@)) && store@ == views(products@)
                    && store.wf(),
                Err(e) => exists|i: int|
                    0 <= i < products@.len() && distinct_names(
                        #[trigger] views(products@).subrange(0, i),
                    ) && has_name(views(products@).subrange(0, i), products@[i].name@) && e
                        == StoreError::DuplicateName(products@[i].name),
            },
    {
        let mut store = Records::new();
        let mut rest = products;
        let ghost all = views(products@);
        let mut i: usize = 0;
        let n = rest.len();
        while i < n
            invariant
                store.wf(),
                i <= n,
                n == products@.len(),
                all == views(products@),
                store@ == all.subrange(0, i as int),
                rest@ == products@.subrange(i as int, n as int),
            decreases n - i,
        {
            let p = rest.remove(0);
            assert(p == products@[i as int]);
            assert(rest@ =~= products@.subrange(i as int + 1, n as int));
            match store.add_product(p) {
                Ok(()) => {
                    assert(store@ =~= all.subrange(0, i as int + 1));
                },
                Err(e) => {
                    return Err(e);
                },
            }
            i += 1;
        }
        assert(store@ =~= all);
        Ok(store)
    }

    /// Gives the product of name `name` the name `new_name`. The product
    /// must be there, and no other product may bear the new name; otherwise
    /// nothing changes. Giving a product the name it has changes nothing.
    pub fn rename_product(&mut self, name: &str, new_name: String) -> (r: Result<(), StoreError>)
        requires
            old(self).wf(),
        ensures
            final(self).wf(),
            !has_name(old(self)@, name@) ==> final(self)@ == old(self)@ && (r matches Err(
                StoreError::NotFound(n),
            ) && n@ == name@),
            has_name(old(self)@, name@) && new_name@ != name@ && has_name(old(self)@, new_name@)
                ==> final(self)@ == old(self)@ && r == Err::<(), StoreError>(
                StoreError::DuplicateName(new_name),
            ),
            has_name(old(self)@, name@) && (new_name@ == name@ || !has_name(
                old(self)@,
                new_name@,
            )) ==> r is Ok && final(self)@ == old(self)@.update(
                place_of(old(self)@, name@),
                (ProductView { name: new_name@, ..old(self)@[place_of(old(self)@, name@)] }),
            ),
    {
        match self.position(name) {
            Some(i) => {
                let ghost before = self@;
                assert(place_of(before, name@) == i);
                match self.position(new_name.as_str()) {
                    Some(j) => {
                        if j != i {
                            return Err(StoreError::DuplicateName(new_name));
                        }
                    },
                    None => {},
                }
                let mut p = self.products.remove(i);
                p.name = new_name;
                self.products.insert(i, p);
                assert(self@ =~= before.update(
                    i as int,
                    (ProductView { name: new_name@, ..before[i as int] }),
                ));
                Ok(())
            },
            None => Err(StoreError::NotFound(name.to_owned())),
        }
    }

    /// Adds a product, unless the store holds one of the same name already.
    pub fn add_product(&mut self, product: Product) -> (r: Result<(), StoreError>)
        requires
            old(self).wf(),
        ensures
            final(self).wf(),
            match added(old(self)@, product@) {
                Some(items) => r is Ok && final(self)@ == items,
                None => r == Err::<(), StoreError>(StoreError::DuplicateName(product.name))
                    && final(self)@ == old(self)@,
            },
    {
        if self.position(product.name.as_str()).is_some() {
            return Err(StoreError::DuplicateName(product.name));
        }
        let ghost before = self@;
        self.products.push(product);
        assert(self@ =~= before.push(product@));
        Ok(())
    }

    /// Takes the product of this name out of the store and returns it.
    pub fn remove_product(&mut self, name: &str) -> (r: Result<Product, StoreError>)
        requires
            old(self).wf(),
        ensures
            final(self).wf(),
            !has_name(old(self)@, name@) ==> final(self)@ == old(self)@ && (r matches Err(
                StoreError::NotFound(n),
            ) && n@ == name@),
            has_name(old(self)@, name@) ==> (r matches Ok(p) && p@ == old(self)@[place_of(
                old(self)@,
                name@,
            )]) && final(self)@ == old(self)@.remove(place_of(old(self)@, name@)),
            !has_name(final(self)@, name@),
    {
        match self.position(name) {
            Some(i) => {
                let ghost before = self@;
                let p = self.products.remove(i);
                assert(self@ =~= before.remove(i as int));
                assert(place_of(before, name@) == i);
                Ok(p)
            },
            None => Err(StoreError::NotFound(name.to_owned())),
        }
    }

    /// Hands out the product of this name for changes in place. The store
    /// afterwards is the old one with whatever the caller left in the handle
    /// at the product's place; it stays well formed where the name was kept.
    pub fn get_product_mut(&mut self, name: &str) -> (r: Result<&mut Product, StoreError>)
        requires
            old(self).wf(),
        ensures
            match r {
                Ok(p) => has_name(old(self)@, name@) && p@ == old(self)@[place_of(
                    old(self)@,
                    name@,
                )] && final(self)@ == old(self)@.update(
                    place_of(old(self)@, name@),
                    final(p)@,
                ) && (final(p)@.name == name@ ==> final(self).wf()),
                Err(e) => !has_name(old(self)@, name@) && final(self)@ == old(self)@ && (
                e matches StoreError::NotFound(n) && n@ == name@),
            },
    {
        match self.position(name) {
            Some(i) => {
                assert(place_of(self@, name@) == i);
                assert forall|q: Product|
                    views(#[trigger] self.products@.update(i as int, q)) == self@.update(
                        i as int,
                        q@,
                    ) by {
                    assert(views(self.products@.update(i as int, q)) =~= self@.update(
                        i as int,
                        q@,
                    ));
                }
                Ok(&mut self.products[i])
            },
            None => Err(StoreError::NotFound(name.to_owned())),
        }
    }

    /// Every product of the store, in the store's order.
    pub fn list_products(&self) -> (r: Vec<&Product>)
        ensures
            r@.len() == self@.len(),
            forall|i: int| 0 <= i < r@.len() ==> (#[trigger] r@[i])@ == self@[i],
    {
        let mut out: Vec<&Product> = Vec::new();
        let mut i: usize = 0;
        while i < self.products.len()
            invariant
                i <= self.products.len(),
                out@.len() == i,
                forall|k: int| 0 <= k < i ==> (#[trigger] out@[k])@ == self@[k],
            decreases self.products.len() - i,
        {
            out.push(&self.products[i]);
            i += 1;
        }
        out
    }

    /// Applies a request to the product of this name: all of it where the
    /// product is there and the request passes every rule, nothing otherwise.
    pub fn update(&mut self, name: &str, patch: ProductPatch) -> (r: Result<(), StoreError>)
        requires
            old(self).wf(),
        ensures
            final(self).wf(),
            !has_name(old(self)@, name@) ==> final(self)@ == old(self)@ && (r matches Err(
                StoreError::NotFound(n),
            ) && n@ == name@),
            has_name(old(self)@, name@) ==> match patch.outcome(
                old(self)@[place_of(old(self)@, name@)].has_sale(),
            ) {
                Ok(changes) => r is Ok && final(self)@ == old(self)@.update(
                    place_of(old(self)@, name@),
                    old(self)@[place_of(old(self)@, name@)].updated(changes),
                ),
                Err(e) => r == Err::<(), StoreError>(StoreError::Validation(e)) && final(self)@
                    == old(self)@,
            },
    {
        match self.position(name) {
            Some(i) => {
                let ghost before = self@;
                assert(place_of(before, name@) == i);
                assert forall|q: Product|
                    views(#[trigger] self.products@.update(i as int, q)) == before.update(
                        i as int,
                        q@,
                    ) by {
                    assert(views(self.products@.update(i as int, q)) =~= before.update(
                        i as int,
                        q@,
                    ));
                }
                match self.products[i].apply_patch(patch) {
                    Ok(()) => Ok(()),
                    Err(e) => {
                        assert(self@ =~= before);
                        Err(StoreError::Validation(e))
                    },
                }
            },
            None => Err(StoreError::NotFound(name.to_owned())),
        }
    }
}

} // verus!
