//! A user's subscriptions, sorted into the folders that the user filed them in.

use vstd::prelude::*;

use super::models::UserFeedId;

verus! {

/// A subscription together with the feed that it is to.
#[derive(Debug)]
pub struct ResolvedUserFeed {
    pub id: UserFeedId,
    pub url: String,
    pub status: String,
    pub title: String,
    pub description: Option<String>,
}

/// The name under which subscriptions without a folder are shown.
pub open spec fn default_folder() -> Seq<char> {
    "Default"@
}

/// The name of the folder of a row: the folder's title, or the default name.
pub open spec fn folder_name(folder: Option<String>) -> Seq<char> {
    match folder {
        Some(title) => title@,
        None => default_folder(),
    }
}

/// The rows `rows` cut into runs: neighbours under the same folder name form
/// one group, in the order of the rows. Rows of one folder that do not stand
/// next to each other form several groups.
pub open spec fn grouped(rows: Seq<(Option<String>, ResolvedUserFeed)>) -> Seq<
    (Seq<char>, Seq<ResolvedUserFeed>),
>
    decreases rows.len(),
{
    if rows.len() == 0 {
        Seq::empty()
    } else {
        let groups = grouped(rows.drop_last());
        let (folder, feed) = rows.last();
        let name = folder_name(folder);
        if groups.len() > 0 && groups.last().0 == name {
            groups.drop_last().push((name, groups.last().1.push(feed)))
        } else {
            groups.push((name, seq![feed]))
        }
    }
}

/// Groups as contracts speak of them.
pub open spec fn groups_view(groups: Seq<(String, Vec<ResolvedUserFeed>)>) -> Seq<
    (Seq<char>, Seq<ResolvedUserFeed>),
> {
    groups.map_values(|group: (String, Vec<ResolvedUserFeed>)| (group.0@, group.1@))
}

impl ResolvedUserFeed {
    /// Sorts a user's subscriptions into folders. `rows` holds each
    /// subscription with the title of its folder, ordered by folder; the
    /// result holds one group for each run of rows under the same name.
    pub fn resolve_all_by_folders(rows: Vec<(Option<String>, ResolvedUserFeed)>) -> (groups: Vec<
        (String, Vec<ResolvedUserFeed>),
    >)
        ensures
            groups_view(groups@) == grouped(rows@),
    {
        let mut groups: Vec<(String, Vec<ResolvedUserFeed>)> = Vec::new();
        let mut current: Option<(String, Vec<ResolvedUserFeed>)> = None;
        let ghost all = rows@;
        assert(groups_view(groups@) =~= Seq::<(Seq<char>, Seq<ResolvedUserFeed>)>::empty());
        for row in rest: rows
            invariant
                rest.seq() == all,
                match current {
                    None => rest.index() == 0 && groups@.len() == 0,
                    Some(group) => grouped(all.take(rest.index() as int)) == groups_view(
                        groups@,
                    ).push((group.0@, group.1@)),
                },
        {
            let ghost before = all.take(rest.index() as int);
            let ghost done = all.take(rest.index() + 1);
            let ghost closed = groups@;
            let (folder, feed) = row;
            let name = match folder {
                Some(title) => title,
                None => "Default".to_owned(),
            };
            proof {
                assert(done.drop_last() =~= before);
                assert(done.last() == row);
                assert(name@ == folder_name(folder));
            }
            match current {
                None => {
                    let mut feeds: Vec<ResolvedUserFeed> = Vec::new();
                    feeds.push(feed);
                    assert(feeds@ =~= seq![feed]);
                    assert(grouped(before) =~= Seq::<(Seq<char>, Seq<ResolvedUserFeed>)>::empty());
                    current = Some((name, feeds));
                },
                Some(group) => {
                    let (open_name, mut feeds) = group;
                    if open_name == name {
                        let ghost earlier = feeds@;
                        feeds.push(feed);
                        proof {
                            let view = groups_view(closed).push((open_name@, earlier));
                            assert(view.drop_last() =~= groups_view(closed));
                        }
                        current = Some((open_name, feeds));
                    } else {
                        let mut fresh: Vec<ResolvedUserFeed> = Vec::new();
                        fresh.push(feed);
                        assert(fresh@ =~= seq![feed]);
                        groups.push((open_name, feeds));
                        assert(groups_view(groups@) =~= groups_view(closed).push(
                            (open_name@, feeds@),
                        ));
                        current = Some((name, fresh));
                    }
                },
            }
        }
        let ghost done = all;
        assert(all.take(all.len() as int) =~= all);
        match current {
            None => {
                assert(grouped(done) =~= Seq::<(Seq<char>, Seq<ResolvedUserFeed>)>::empty());
            },
            Some(group) => {
                let ghost closed = groups@;
                groups.push(group);
                assert(groups_view(groups@) =~= groups_view(closed).push((group.0@, group.1@)));
            },
        }
        groups
    }
}

} // verus!
