//! A second take on the line-search library. The search results are the same
//! as in `minigrep`; the configuration is read one argument at a time, with a
//! separate error for each missing argument.

use vstd::prelude::*;
use crate::text::{
    chars_vec, lines_of, lemma_filter_push, lower_of, match_ci_pred, match_pred, matching,
    matching_ci, split_lines, to_lowercase, vec_contains,
};

verus! {

/// What a search run needs: the query, the file to search, and whether case
/// matters.
#[derive(Debug)]
pub struct Config {
    pub query: String,
    pub filename: String,
    pub case_sensitive: bool,
}

impl Config {
    /// Reads the query and the filename from an argument list whose first
    /// entry is the program name, reporting the first missing argument.
    /// Whether case matters is handed in by the caller, who reads it from the
    /// environment.
    pub fn new(args: &Vec<String>, case_sensitive: bool) -> (r: Result<
        Config,
        &'static str,
    >)
        ensures
            args@.len() < 2 ==> r is Err && r->Err_0@ == "Didn't get a query string"@,
            args@.len() == 2 ==> r is Err && r->Err_0@ == "Didn't get a file name"@,
            args@.len() >= 3 ==> r is Ok && r->Ok_0.query@ == args@[1]@
                && r->Ok_0.filename@ == args@[2]@ && r->Ok_0.case_sensitive == case_sensitive,
    {
        if args.len() < 2 {
            return Err("Didn't get a query string");
        }
        if args.len() < 3 {
            return Err("Didn't get a file name");
        }
        let query = args[1].clone();
        let filename = args[2].clone();
        Ok(Config { query, filename, case_sensitive })
    }
}

/// The lines of `contents` that contain `query`.
pub fn search<'a>(query: &str, contents: &'a str) -> (r: Vec<&'a str>)
    ensures
        r.deep_view() == matching(lines_of(contents@), query@),
{
    let q = chars_vec(query);
    let lines = split_lines(contents);
    let mut r: Vec<&'a str> = Vec::new();
    let mut j: usize = 0;
    proof {
        assert(r.deep_view() =~= lines.deep_view().subrange(0, 0).filter(match_pred(query@)));
    }
    while j < lines.len()
        invariant
            q@ == query@,
            lines.deep_view() == lines_of(contents@),
            j <= lines@.len(),
            lines@.len() == lines.deep_view().len(),
            r.deep_view() == lines.deep_view().subrange(0, j as int).filter(
                match_pred(query@),
            ),
        decreases lines@.len() - j,
    {
        let line = lines[j];
        let lv = chars_vec(line);
        proof {
            assert(lines.deep_view()[j as int] == line@);
        }
        let hit = vec_contains(&lv, &q);
        proof {
            assert(match_pred(query@)(line@) == hit);
        }
        let ghost before = r.deep_view();
        if hit {
            r.push(line);
            proof {
                assert(r.deep_view() =~= before.push(line@));
            }
        }
        proof {
            assert(lines.deep_view().subrange(0, j + 1) =~= lines.deep_view().subrange(
                0,
                j as int,
            ).push(line@));
            lemma_filter_push(lines.deep_view().subrange(0, j as int), line@, match_pred(query@));
        }
        j += 1;
    }
    proof {
        assert(lines.deep_view().subrange(0, lines.deep_view().len() as int)
            =~= lines.deep_view());
    }
    r
}

/// The lines of `contents` that contain `query` once both are lowercased.
pub fn search_case_insensitive<'a>(query: &str, contents: &'a str) -> (r: Vec<&'a str>)
    ensures
        r.deep_view() == matching_ci(lines_of(contents@), query@),
{
    let lowered = to_lowercase(query);
    let q = chars_vec(lowered.as_str());
    let lines = split_lines(contents);
    let mut r: Vec<&'a str> = Vec::new();
    let mut j: usize = 0;
    proof {
        assert(r.deep_view() =~= lines.deep_view().subrange(0, 0).filter(
            match_ci_pred(query@),
        ));
    }
    while j < lines.len()
        invariant
            q@ == lower_of(query@),
            lines.deep_view() == lines_of(contents@),
            j <= lines@.len(),
            lines@.len() == lines.deep_view().len(),
            r.deep_view() == lines.deep_view().subrange(0, j as int).filter(
                match_ci_pred(query@),
            ),
        decreases lines@.len() - j,
    {
        let line = lines[j];
        let line_lowered = to_lowercase(line);
        let lv = chars_vec(line_lowered.as_str());
        proof {
            assert(lines.deep_view()[j as int] == line@);
        }
        let hit = vec_contains(&lv, &q);
        proof {
            assert(match_ci_pred(query@)(line@) == hit);
        }
        let ghost before = r.deep_view();
        if hit {
            r.push(line);
            proof {
                assert(r.deep_view() =~= before.push(line@));
            }
        }
        proof {
            assert(lines.deep_view().subrange(0, j + 1) =~= lines.deep_view().subrange(
                0,
                j as int,
            ).push(line@));
            lemma_filter_push(
                lines.deep_view().subrange(0, j as int),
                line@,
                match_ci_pred(query@),
            );
        }
        j += 1;
    }
    proof {
        assert(lines.deep_view().subrange(0, lines.deep_view().len() as int)
            =~= lines.deep_view());
    }
    r
}

/// The search that a run of the program performs: case matters exactly when
/// the configuration says so.
pub fn matching_lines<'a>(config: &Config, contents: &'a str) -> (r: Vec<&'a str>)
    ensures
        config.case_sensitive ==> r.deep_view() == matching(
            lines_of(contents@),
            config.query@,
        ),
        !config.case_sensitive ==> r.deep_view() == matching_ci(
            lines_of(contents@),
            config.query@,
        ),
{
    if config.case_sensitive {
        search(config.query.as_str(), contents)
    } else {
        search_case_insensitive(config.query.as_str(), contents)
    }
}

} // verus!
