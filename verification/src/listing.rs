//! What the listing of a directory gives, as a whole.
use crate::error::Error;
use crate::host::{self, Handle, Host};
use crate::readdir::{
    self, EntryInfo, Listed, NextStage, ReadDir, ReadDirNext, DOTDOT_COOKIE, DOT_COOKIE,
    FIRST_COOKIE,
};
use crate::wasi::{DirCookie, Dirent, __WASI_DIRCOOKIE_START};
use vstd::prelude::*;

verus! {

/// What the operating system lists, in its order: entries, and failures to read
/// one.
pub type Items = Seq<Result<EntryInfo, Error>>;

/// The items under consecutive cookies.
pub open spec fn number_all(items: Items, first: DirCookie) -> Seq<Result<Dirent, Error>> {
    Seq::new(items.len(), |i: int| readdir::numbered(items[i], (first + i) as DirCookie))
}

/// The whole listing of a directory.
pub open spec fn listing(dot: Dirent, dotdot: Dirent, items: Items) -> Seq<
    Result<Dirent, Error>,
> {
    seq![Ok::<Dirent, Error>(dot), Ok::<Dirent, Error>(dotdot)] + number_all(items, FIRST_COOKIE)
}

/// The entries among `.` and `..` that have not had their turn.
pub open spec fn pending(dir: ReadDir) -> Seq<Result<Dirent, Error>> {
    (match dir.dot {
        Some(dot) => seq![Ok::<Dirent, Error>(dot)],
        None => seq![],
    }) + (match dir.dotdot {
        Some(dotdot) => seq![Ok::<Dirent, Error>(dotdot)],
        None => seq![],
    })
}

/// What is left of a sequence when so many are skipped.
pub open spec fn skipping<T>(all: Seq<T>, count: nat) -> Seq<T> {
    if count < all.len() {
        all.skip(count as int)
    } else {
        seq![]
    }
}

/// What a directory still gives to the guest, if these items are what is left of
/// its listing by the operating system.
pub open spec fn rest(dir: ReadDir, items: Items) -> Seq<Result<Dirent, Error>> {
    skipping(pending(dir) + number_all(items, dir.next_cookie), dir.to_skip as nat)
}

/// The next item that a host lists: none at the end.
pub open spec fn next_item(host: Host, n: nat, stream: Handle) -> Option<
    Result<EntryInfo, Error>,
> {
    let name = (host.entry_name)(n + 1, stream);
    let ftype = (host.entry_type)(n + 2, stream);
    let ino = (host.entry_serial_number)(n + 3, stream);
    match (host.next_entry)(n, stream) {
        None => None,
        Some(Err(error)) => Some(Err(Error::Io(error))),
        Some(Ok(())) => if name is Err {
            Some(Err(name->Err_0))
        } else if ftype is Err {
            Some(Err(Error::Io(ftype->Err_0)))
        } else if ino is Err {
            Some(Err(Error::Io(ino->Err_0)))
        } else {
            Some(
                Ok(EntryInfo { name: name->Ok_0, ftype: ftype->Ok_0, ino: ino->Ok_0 }),
            )
        },
    }
}

/// How many requests that item takes.
pub open spec fn item_cost(host: Host, n: nat, stream: Handle) -> nat {
    if (host.next_entry)(n, stream) is None || (host.next_entry)(n, stream)->Some_0 is Err {
        1
    } else if (host.entry_name)(n + 1, stream) is Err {
        2
    } else if (host.entry_type)(n + 2, stream) is Err {
        3
    } else {
        4
    }
}

/// When `count` items have been listed.
pub open spec fn time_after(host: Host, n: nat, stream: Handle, count: nat) -> nat
    decreases count,
{
    if count == 0 {
        n
    } else {
        time_after(host, n + item_cost(host, n, stream), stream, (count - 1) as nat)
    }
}

/// From now on the host lists these items and then comes to the end.
pub open spec fn lists(host: Host, n: nat, stream: Handle, items: Items) -> bool
    decreases items.len(),
{
    if items.len() == 0 {
        next_item(host, n, stream) is None
    } else {
        &&& next_item(host, n, stream) == Some(items[0])
        &&& lists(host, n + item_cost(host, n, stream), stream, items.drop_first())
    }
}

/// How many items the next step of a listing uses up, if there are enough.
pub open spec fn used_up(dir: ReadDir) -> nat {
    if dir.to_skip < pending(dir).len() {
        0
    } else {
        (dir.to_skip - pending(dir).len() + 1) as nat
    }
}

/// A directory whose `.` and `..` have had their turn skips the items that it
/// has to and gives the next.
proof fn entries_are_skipped_then_given(
    dir: ReadDir,
    items: Items,
    host: Host,
    n: nat,
    limit: nat,
)
    requires
        lists(host, n, dir.stream, items),
        dir.next_cookie + items.len() <= u64::MAX,
        limit >= 4 * items.len() + 4,
    ensures
        host::run(ReadDirNext { dir, stage: NextStage::Entry }, host, n, limit) == Some(
            if dir.to_skip < items.len() {
                Ok::<Listed, Error>(
                    (
                        ReadDir {
                            to_skip: 0,
                            next_cookie: (dir.next_cookie + dir.to_skip + 1) as DirCookie,
                            ..dir
                        },
                        Some(
                            readdir::numbered(
                                items[dir.to_skip as int],
                                (dir.next_cookie + dir.to_skip) as DirCookie,
                            ),
                        ),
                    ),
                )
            } else {
                Ok::<Listed, Error>(
                    (
                        ReadDir {
                            to_skip: 0,
                            next_cookie: (dir.next_cookie + items.len()) as DirCookie,
                            ..dir
                        },
                        None,
                    ),
                )
            },
        ),
    decreases items.len(),
{
    reveal_with_fuel(host::run, 5);
    if items.len() > 0 && dir.to_skip > 0 {
        let after = ReadDir {
            to_skip: (dir.to_skip - 1) as usize,
            next_cookie: (dir.next_cookie + 1) as DirCookie,
            ..dir
        };
        let cost = item_cost(host, n, dir.stream);
        entries_are_skipped_then_given(
            after,
            items.drop_first(),
            host,
            n + cost,
            (limit - cost) as nat,
        );
    }
}

/// A step that gives an item takes the requests of the items up to that one.
proof fn skipping_takes_its_requests(
    dir: ReadDir,
    items: Items,
    host: Host,
    n: nat,
    limit: nat,
)
    requires
        lists(host, n, dir.stream, items),
        dir.to_skip < items.len(),
        limit >= 4 * items.len() + 4,
    ensures
        n + host::requests(
            ReadDirNext { dir, stage: NextStage::Entry },
            host,
            n,
            limit,
        ).len() == time_after(host, n, dir.stream, (dir.to_skip + 1) as nat),
    decreases items.len(),
{
    reveal_with_fuel(host::requests, 5);
    reveal_with_fuel(time_after, 2);
    if dir.to_skip > 0 {
        let after = ReadDir {
            to_skip: (dir.to_skip - 1) as usize,
            next_cookie: dir.next_cookie.wrapping_add(1),
            ..dir
        };
        let cost = item_cost(host, n, dir.stream);
        skipping_takes_its_requests(
            after,
            items.drop_first(),
            host,
            n + cost,
            (limit - cost) as nat,
        );
    }
}

/// A host that has listed some of the items goes on with the others.
proof fn listing_goes_on(host: Host, n: nat, stream: Handle, items: Items, count: nat)
    requires
        lists(host, n, stream, items),
        count <= items.len(),
    ensures
        lists(host, time_after(host, n, stream, count), stream, items.skip(count as int)),
    decreases count,
{
    if count == 0 {
        assert(items.skip(0) == items);
    } else {
        listing_goes_on(
            host,
            n + item_cost(host, n, stream),
            stream,
            items.drop_first(),
            (count - 1) as nat,
        );
        assert(items.drop_first().skip(count - 1) == items.skip(count as int));
    }
}

/// Each step of a listing gives the guest the first of what is left, and leaves
/// the others for the steps to come; when nothing is left it says so.
pub proof fn each_step_gives_the_first_of_the_rest(
    dir: ReadDir,
    items: Items,
    host: Host,
    n: nat,
    limit: nat,
)
    requires
        lists(host, n, dir.stream, items),
        dir.next_cookie + items.len() <= u64::MAX,
        limit >= 4 * items.len() + 4,
    ensures
        ({
            let left = rest(dir, items);
            let result = host::run_from(dir.spec_next(), host, n, limit);
            let then = n + host::requests_from(dir.spec_next(), host, n, limit).len();
            let after = result->Some_0->Ok_0.0;
            let given = result->Some_0->Ok_0.1;
            let others = items.skip(used_up(dir) as int);
            &&& result is Some
            &&& result->Some_0 is Ok
            &&& left.len() == 0 ==> given is None
            &&& left.len() > 0 ==> {
                &&& given == Some(left[0])
                &&& used_up(dir) <= items.len()
                &&& after.stream == dir.stream
                &&& after.next_cookie + others.len() <= u64::MAX
                &&& lists(host, then, after.stream, others)
                &&& rest(after, others) == left.drop_first()
            }
        }),
{
    reveal_with_fuel(ReadDir::spec_next, 3);
    let left = rest(dir, items);
    let used = used_up(dir);
    if dir.to_skip < pending(dir).len() {
        let after = host::run_from(dir.spec_next(), host, n, limit)->Some_0->Ok_0.0;
        assert(items.skip(0) == items);
        assert(pending(after) == pending(dir).skip(dir.to_skip + 1));
        assert(rest(after, items) == left.drop_first());
    } else {
        let waiting = ReadDir {
            dot: None,
            dotdot: None,
            to_skip: (dir.to_skip - pending(dir).len()) as usize,
            ..dir
        };
        assert(dir.spec_next() == host::Outcome::<ReadDirNext, Listed>::Continue(
            ReadDirNext { dir: waiting, stage: NextStage::Entry },
        ));
        entries_are_skipped_then_given(waiting, items, host, n, limit);
        if waiting.to_skip < items.len() {
            skipping_takes_its_requests(waiting, items, host, n, limit);
            listing_goes_on(host, n, dir.stream, items, used);
            let after = host::run_from(dir.spec_next(), host, n, limit)->Some_0->Ok_0.0;
            let others = items.skip(used as int);
            assert(number_all(others, after.next_cookie) == number_all(
                items,
                dir.next_cookie,
            ).skip(used as int));
            assert(pending(after) == Seq::<Result<Dirent, Error>>::empty());
            assert(rest(after, others) == left.drop_first());
        }
    }
}

/// What a guest gets that asks for the next entry until there is none, but no
/// more than `steps` times; no step makes more than `limit` requests.
pub open spec fn all_given(
    dir: ReadDir,
    host: Host,
    n: nat,
    steps: nat,
    limit: nat,
) -> Seq<Result<Dirent, Error>>
    decreases steps,
{
    let then = n + host::requests_from(dir.spec_next(), host, n, limit).len();
    match host::run_from(dir.spec_next(), host, n, limit) {
        Some(Ok((after, Some(item)))) if steps > 0 => seq![item] + all_given(
            after,
            host,
            then,
            (steps - 1) as nat,
            limit,
        ),
        _ => seq![],
    }
}

/// The steps of a listing together give all that is left, in its order: nothing
/// twice, and nothing left out.
pub proof fn the_steps_give_the_rest(
    dir: ReadDir,
    items: Items,
    host: Host,
    n: nat,
    steps: nat,
    limit: nat,
)
    requires
        lists(host, n, dir.stream, items),
        dir.next_cookie + items.len() <= u64::MAX,
        steps >= rest(dir, items).len(),
        limit >= 4 * items.len() + 4,
    ensures
        all_given(dir, host, n, steps, limit) == rest(dir, items),
    decreases steps,
{
    let left = rest(dir, items);
    each_step_gives_the_first_of_the_rest(dir, items, host, n, limit);
    if left.len() > 0 {
        let after = host::run_from(dir.spec_next(), host, n, limit)->Some_0->Ok_0.0;
        let then = n + host::requests_from(dir.spec_next(), host, n, limit).len();
        let others = items.skip(used_up(dir) as int);
        the_steps_give_the_rest(after, others, host, then, (steps - 1) as nat, limit);
        assert(seq![left[0]] + left.drop_first() == left);
    }
}

/// A listing gives the whole directory but for what the cookie stands for: as
/// many entries are left out at the front as the cookie says.
pub proof fn a_cookie_leaves_out_that_many_entries(
    stream: Handle,
    dot: Dirent,
    dotdot: Dirent,
    skip: usize,
    items: Items,
    host: Host,
    n: nat,
    steps: nat,
    limit: nat,
)
    requires
        lists(host, n, stream, items),
        items.len() + FIRST_COOKIE <= u64::MAX,
        steps >= items.len() + 2,
        limit >= 4 * items.len() + 4,
    ensures
        all_given(readdir::started(stream, dot, dotdot, skip), host, n, steps, limit) == skipping(
            listing(dot, dotdot, items),
            skip as nat,
        ),
{
    let dir = readdir::started(stream, dot, dotdot, skip);
    assert(pending(dir) + number_all(items, FIRST_COOKIE) == listing(dot, dotdot, items));
    the_steps_give_the_rest(dir, items, host, n, steps, limit);
}

/// Each item is what the host says when its turn comes.
proof fn items_are_what_the_host_says(host: Host, n: nat, stream: Handle, items: Items, i: nat)
    requires
        lists(host, n, stream, items),
        i < items.len(),
    ensures
        next_item(host, time_after(host, n, stream, i), stream) == Some(items[i as int]),
{
    listing_goes_on(host, n, stream, items, i);
    assert(items.skip(i as int)[0] == items[i as int]);
}

/// A listing from the start holds `.`, then `..`, then one entry for each item of the
/// operating system's list, and nothing else. The cookie takes away as many of these as
/// it says, from the front.
pub proof fn a_listing_holds_dot_and_dotdot_and_every_item(
    stream: Handle,
    dot: Dirent,
    dotdot: Dirent,
    skip: usize,
    items: Items,
    host: Host,
    n: nat,
    steps: nat,
    limit: nat,
)
    requires
        lists(host, n, stream, items),
        items.len() + 3 <= u64::MAX,
        steps >= items.len() + 2,
        limit >= 4 * items.len() + 4,
    ensures
        ({
            let given = all_given(
                readdir::started(stream, dot, dotdot, skip),
                host,
                n,
                steps,
                limit,
            );
            &&& skip <= items.len() + 2 ==> given.len() == items.len() + 2 - skip
            &&& skip > items.len() + 2 ==> given.len() == 0
            &&& skip == 0 ==> given[0] == Ok::<Dirent, Error>(dot)
            &&& skip <= 1 ==> given[1 - skip] == Ok::<Dirent, Error>(dotdot)
        }),
{
    a_cookie_leaves_out_that_many_entries(
        stream,
        dot,
        dotdot,
        skip,
        items,
        host,
        n,
        steps,
        limit,
    );
}

/// Every entry of a listing is what the host says of it. For each item of the operating
/// system's list that the cookie does not take away, what the listing gives in its place
/// has the name, the type and the serial number that the host gave when that item's turn
/// came, and its cookie is its place in the whole listing, counted from 1. If the host
/// failed to give one of these, that failure is in the place of the entry.
pub proof fn every_entry_is_what_the_host_says_of_it(
    stream: Handle,
    dot: Dirent,
    dotdot: Dirent,
    skip: usize,
    items: Items,
    host: Host,
    n: nat,
    steps: nat,
    limit: nat,
    i: nat,
)
    requires
        lists(host, n, stream, items),
        items.len() + 3 <= u64::MAX,
        steps >= items.len() + 2,
        limit >= 4 * items.len() + 4,
        i < items.len(),
        skip <= i + 2,
    ensures
        ({
            let given = all_given(
                readdir::started(stream, dot, dotdot, skip),
                host,
                n,
                steps,
                limit,
            )[i + 2 - skip];
            let turn = time_after(host, n, stream, i);
            let moved = (host.next_entry)(turn, stream);
            let name = (host.entry_name)(turn + 1, stream);
            let ftype = (host.entry_type)(turn + 2, stream);
            let ino = (host.entry_serial_number)(turn + 3, stream);
            &&& moved is Some
            &&& if moved->Some_0 is Err {
                given == Err::<Dirent, Error>(Error::Io(moved->Some_0->Err_0))
            } else if name is Err {
                given == Err::<Dirent, Error>(name->Err_0)
            } else if ftype is Err {
                given == Err::<Dirent, Error>(Error::Io(ftype->Err_0))
            } else if ino is Err {
                given == Err::<Dirent, Error>(Error::Io(ino->Err_0))
            } else {
                &&& given is Ok
                &&& given->Ok_0.name == name->Ok_0
                &&& given->Ok_0.ftype == ftype->Ok_0
                &&& given->Ok_0.ino == ino->Ok_0
                &&& given->Ok_0.cookie == i + 3
            }
        }),
{
    a_cookie_leaves_out_that_many_entries(
        stream,
        dot,
        dotdot,
        skip,
        items,
        host,
        n,
        steps,
        limit,
    );
    items_are_what_the_host_says(host, n, stream, items, i);
    let whole = listing(dot, dotdot, items);
    assert(skipping(whole, skip as nat)[i + 2 - skip] == whole[i as int + 2]);
}

/// The cookie of an entry is its place in the listing, counted from 1. So a
/// listing that is started with the cookie of an entry gives exactly what comes
/// after that entry, and one that is started with the cookie for the start gives
/// everything.
pub proof fn a_listing_resumes_after_any_entry(
    dot: Dirent,
    dotdot: Dirent,
    items: Items,
    i: int,
)
    requires
        dot.cookie == DOT_COOKIE,
        dotdot.cookie == DOTDOT_COOKIE,
        items.len() + FIRST_COOKIE <= u64::MAX,
        0 <= i < listing(dot, dotdot, items).len(),
        listing(dot, dotdot, items)[i] is Ok,
    ensures
        listing(dot, dotdot, items)[i]->Ok_0.cookie == i + 1,
        skipping(
            listing(dot, dotdot, items),
            listing(dot, dotdot, items)[i]->Ok_0.cookie as nat,
        ) == listing(dot, dotdot, items).skip(i + 1),
        skipping(listing(dot, dotdot, items), __WASI_DIRCOOKIE_START as nat) == listing(
            dot,
            dotdot,
            items,
        ),
{
    let all = listing(dot, dotdot, items);
    assert(all[i]->Ok_0.cookie == i + 1);
    assert(skipping(all, (i + 1) as nat) == all.skip(i + 1));
    assert(all.skip(0) == all);
}

} // verus!
