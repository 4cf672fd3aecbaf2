//! In-memory store of tenant apps and phone numbers, with secret lookup
//! and IP-subnet admission. Sync replaces a whole table at once; the
//! runtime shares the store behind a reader-writer lock.

use vstd::prelude::*;

use crate::protocol::address_book::phone_number_wf;
use crate::protocol::address_book::subnet_contains;
use crate::protocol::address_book::subnet_wf;
use crate::protocol::address_book::AppInfo;
use crate::protocol::address_book::IpAddress;
use crate::protocol::address_book::PhoneNumber;
use crate::protocol::address_book::PhoneNumberV;

verus! {

/// The app whose secret is `secret`; when several carry it, the one a
/// keyed table would keep: the last in sync order.
pub open spec fn last_app_with_secret(apps: Seq<AppInfo>, secret: Seq<char>) -> Option<
    AppInfo,
>
    decreases apps.len(),
{
    if apps.len() == 0 {
        None
    } else if apps.last().app_secret@ == secret {
        Some(apps.last())
    } else {
        last_app_with_secret(apps.drop_last(), secret)
    }
}

/// The app with identifier `app_id`, the last in sync order.
pub open spec fn last_app_with_id(apps: Seq<AppInfo>, app_id: Seq<char>) -> Option<AppInfo>
    decreases apps.len(),
{
    if apps.len() == 0 {
        None
    } else if apps.last().app_id@ == app_id {
        Some(apps.last())
    } else {
        last_app_with_id(apps.drop_last(), app_id)
    }
}

/// The registered number `number`, the last in sync order.
pub open spec fn last_number_with(numbers: Seq<PhoneNumberV>, number: Seq<char>) -> Option<
    PhoneNumberV,
>
    decreases numbers.len(),
{
    if numbers.len() == 0 {
        None
    } else if numbers.last().number == number {
        Some(numbers.last())
    } else {
        last_number_with(numbers.drop_last(), number)
    }
}

/// Whether some subnet of `number` contains `remote`.
pub open spec fn number_admits(number: PhoneNumberV, remote: IpAddress) -> bool {
    exists|i: int|
        0 <= i < number.subnets.len() && subnet_contains(
            #[trigger] number.subnets[i],
            remote,
        )
}

/// What admission returns: the owning app and the number iff the callee
/// number is registered, its owner is known, and the caller's address lies
/// in one of the number's subnets.
pub open spec fn admission(
    root: AppInfo,
    apps: Seq<AppInfo>,
    numbers: Seq<PhoneNumberV>,
    remote: IpAddress,
    to: Seq<char>,
) -> Option<(AppInfo, PhoneNumberV)> {
    match last_number_with(numbers, to) {
        None => None,
        Some(number) => {
            let owner = if number.app_id == root.app_id@ {
                Some(root)
            } else {
                last_app_with_id(apps, number.app_id)
            };
            match owner {
                None => None,
                Some(app) => if number_admits(number, remote) {
                    Some((app, number))
                } else {
                    None
                },
            }
        },
    }
}

/// The directory's tables.
pub struct AddressBookStorage {
    root_app: AppInfo,
    apps: Vec<AppInfo>,
    numbers: Vec<PhoneNumber>,
}

impl AddressBookStorage {
    /// The root app: empty id, the gateway's root secret.
    pub closed spec fn root_spec(&self) -> AppInfo {
        self.root_app
    }

    /// The synced app table, in sync order.
    pub closed spec fn apps_spec(&self) -> Seq<AppInfo> {
        self.apps@
    }

    /// The synced number table, in sync order.
    pub closed spec fn numbers_spec(&self) -> Seq<PhoneNumberV> {
        self.numbers.deep_view()
    }

    /// Every stored number has well-formed subnets.
    pub open spec fn wf(&self) -> bool {
        forall|i: int|
            0 <= i < self.numbers_spec().len() ==> phone_number_wf(
                #[trigger] self.numbers_spec()[i],
            )
    }

    /// An empty directory whose root app holds the gateway secret.
    pub fn new(root_secret: &str) -> (r: Self)
        ensures
            r.wf(),
            r.root_spec().app_id@ == Seq::<char>::empty(),
            r.root_spec().app_secret@ == root_secret@,
            r.apps_spec() == Seq::<AppInfo>::empty(),
            r.numbers_spec() =~= Seq::<PhoneNumberV>::empty(),
    {
        AddressBookStorage {
            root_app: AppInfo { app_id: String::new(), app_secret: root_secret.to_owned() },
            apps: Vec::new(),
            numbers: Vec::new(),
        }
    }

    /// Looks an app up by secret: the root app for the root secret, else
    /// the synced app carrying the secret, if any.
    pub fn validate_app(&self, app_secret: &str) -> (r: Option<AppInfo>)
        ensures
            r == if self.root_spec().app_secret@ == app_secret@ {
                Some(self.root_spec())
            } else {
                last_app_with_secret(self.apps_spec(), app_secret@)
            },
    {
        let secret: String = app_secret.to_owned();
        if self.root_app.app_secret == secret {
            return Some(self.root_app.clone());
        }
        let mut i: usize = self.apps.len();
        proof {
            assert(self.apps@.take(self.apps@.len() as int) =~= self.apps@);
        }
        while i > 0
            invariant
                i <= self.apps@.len(),
                secret@ == app_secret@,
                self.root_spec().app_secret@ != app_secret@,
                last_app_with_secret(self.apps@.take(i as int), secret@)
                    == last_app_with_secret(self.apps@, secret@),
            decreases i,
        {
            i = i - 1;
            proof {
                assert(self.apps@.take(i as int + 1).last() == self.apps@[i as int]);
                assert(self.apps@.take(i as int + 1).drop_last() =~= self.apps@.take(
                    i as int,
                ));
            }
            if self.apps[i].app_secret == secret {
                proof {
                    assert(last_app_with_secret(self.apps@.take(i as int + 1), secret@)
                        == Some(self.apps@[i as int]));
                }
                let cloned_app = self.apps[i].clone();
                proof {
                    assert(cloned_app == self.apps@[i as int]);
                    assert(self.root_spec().app_secret@ != app_secret@);
                    assert(last_app_with_secret(self.apps_spec(), app_secret@) == Some(
                        cloned_app,
                    ));
                }
                return Some(cloned_app);
            }
        }
        proof {
            assert(self.apps@.take(0) =~= Seq::<AppInfo>::empty());
        }
        None
    }

    /// The admission check for incoming calls: accepts iff the callee
    /// number is registered, its owner is known, and the caller's address
    /// lies in one of the number's subnets. The caller identity plays no
    /// part in admission.
    pub fn validate_phone(&self, remote: IpAddress, _from: &str, to: &str) -> (r: Option<
        (AppInfo, PhoneNumber),
    >)
        requires
            self.wf(),
        ensures
            ({
                let m = admission(
                    self.root_spec(),
                    self.apps_spec(),
                    self.numbers_spec(),
                    remote,
                    to@,
                );
                match r {
                    Some(p) => m == Some((p.0, p.1@)),
                    None => m is None,
                }
            }),
    {
        let number = match self.find_number(to) {
            Some(number) => number,
            None => {
                return None;
            },
        };
        let app = if number.app_id == self.root_app.app_id {
            self.root_app.clone()
        } else {
            match self.find_app_by_id(&number.app_id) {
                Some(app) => app,
                None => {
                    return None;
                },
            }
        };
        let mut i: usize = 0;
        while i < number.subnets.len()
            invariant
                i <= number.subnets@.len(),
                phone_number_wf(number@),
                last_number_with(self.numbers_spec(), to@) == Some(number@),
                if number@.app_id == self.root_spec().app_id@ {
                    app == self.root_spec()
                } else {
                    last_app_with_id(self.apps_spec(), number@.app_id) == Some(app)
                },
                forall|j: int|
                    0 <= j < i ==> !subnet_contains(#[trigger] number.subnets@[j], remote),
            decreases number.subnets@.len() - i,
        {
            proof {
                assert(subnet_wf(number@.subnets[i as int]));
            }
            if number.subnets[i].contains(&remote) {
                proof {
                    assert(number_admits(number@, remote)) by {
                        assert(subnet_contains(number@.subnets[i as int], remote));
                    }
                }
                return Some((app, number));
            }
            i = i + 1;
        }
        None
    }

    /// Replaces the app table wholesale.
    pub fn sync_apps(&mut self, new_apps: Vec<AppInfo>)
        ensures
            final(self).apps_spec() == new_apps@,
            final(self).numbers_spec() == old(self).numbers_spec(),
            final(self).root_spec() == old(self).root_spec(),
            old(self).wf() ==> final(self).wf(),
    {
        self.apps = new_apps;
    }

    /// Replaces the number table wholesale. Every entry must carry
    /// well-formed subnets.
    pub fn sync_numbers(&mut self, new_numbers: Vec<PhoneNumber>)
        requires
            forall|i: int|
                0 <= i < new_numbers@.len() ==> phone_number_wf(
                    (#[trigger] new_numbers@[i])@,
                ),
        ensures
            final(self).numbers_spec() == new_numbers.deep_view(),
            final(self).apps_spec() == old(self).apps_spec(),
            final(self).root_spec() == old(self).root_spec(),
            final(self).wf(),
    {
        self.numbers = new_numbers;
    }

    fn find_number(&self, to: &str) -> (r: Option<PhoneNumber>)
        requires
            self.wf(),
        ensures
            match r {
                Some(number) => last_number_with(self.numbers_spec(), to@) == Some(number@)
                    && phone_number_wf(number@),
                None => last_number_with(self.numbers_spec(), to@) is None,
            },
    {
        let to_text: String = to.to_owned();
        let mut i: usize = self.numbers.len();
        proof {
            assert(self.numbers_spec().take(self.numbers_spec().len() as int)
                =~= self.numbers_spec());
        }
        while i > 0
            invariant
                i <= self.numbers@.len(),
                self.wf(),
                to_text@ == to@,
                self.numbers_spec().len() == self.numbers@.len(),
                last_number_with(self.numbers_spec().take(i as int), to_text@)
                    == last_number_with(self.numbers_spec(), to_text@),
            decreases i,
        {
            i = i - 1;
            proof {
                assert(self.numbers_spec().take(i as int + 1).last()
                    == self.numbers_spec()[i as int]);
                assert(self.numbers_spec().take(i as int + 1).drop_last()
                    =~= self.numbers_spec().take(i as int));
                assert(self.numbers_spec()[i as int] == self.numbers@[i as int]@);
            }
            if self.numbers[i].number == to_text {
                proof {
                    assert(last_number_with(
                        self.numbers_spec().take(i as int + 1),
                        to_text@,
                    ) == Some(self.numbers_spec()[i as int]));
                }
                return Some(self.numbers[i].clone());
            }
        }
        proof {
            assert(self.numbers_spec().take(0) =~= Seq::<PhoneNumberV>::empty());
        }
        None
    }

    fn find_app_by_id(&self, app_id: &String) -> (r: Option<AppInfo>)
        ensures
            r == last_app_with_id(self.apps_spec(), app_id@),
    {
        let mut i: usize = self.apps.len();
        proof {
            assert(self.apps@.take(self.apps@.len() as int) =~= self.apps@);
        }
        while i > 0
            invariant
                i <= self.apps@.len(),
                last_app_with_id(self.apps@.take(i as int), app_id@) == last_app_with_id(
                    self.apps@,
                    app_id@,
                ),
            decreases i,
        {
            i = i - 1;
            proof {
                assert(self.apps@.take(i as int + 1).last() == self.apps@[i as int]);
                assert(self.apps@.take(i as int + 1).drop_last() =~= self.apps@.take(
                    i as int,
                ));
            }
            if self.apps[i].app_id == *app_id {
                proof {
                    assert(last_app_with_id(self.apps@.take(i as int + 1), app_id@)
                        == Some(self.apps@[i as int]));
                }
                return Some(self.apps[i].clone());
            }
        }
        proof {
            assert(self.apps@.take(0) =~= Seq::<AppInfo>::empty());
        }
        None
    }
}

} // verus!
