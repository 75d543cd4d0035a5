//! The context of one invocation: the catalog loaded from a directory, the
//! text buffers that are written back to it, and whether that was done.
use vstd::prelude::*;

use crate::config::Config;
use crate::database::DataBase;

verus! {

/// `name` appended to the directory path `dir` as one more component.
pub open spec fn join_path(dir: Seq<char>, name: Seq<char>) -> Seq<char> {
    if dir.len() == 0 || dir.last() == '/' {
        dir + name
    } else {
        dir + seq!['/'] + name
    }
}

/// Appends `name` to the directory path `dir` as one more component.
pub fn join(dir: &str, name: &str) -> (r: String)
    ensures
        r@ == join_path(dir@, name@),
{
    let mut r = String::from_str(dir);
    let n = dir.unicode_len();
    if n > 0 && dir.get_char(n - 1) != '/' {
        r.append("/");
        proof {
            reveal_strlit("/");
        }
    }
    r.append(name);
    proof {
        if n > 0 && dir@.last() != '/' {
            assert(r@ =~= dir@ + seq!['/'] + name@);
        }
    }
    r
}

/// The name of the database file.
pub open spec fn db_file_name() -> Seq<char> {
    "db.ron"@
}

/// The name of the configuration file.
pub open spec fn conf_file_name() -> Seq<char> {
    "config.ron"@
}

/// The prefix of the tmux session of a space.
pub open spec fn session_prefix() -> Seq<char> {
    "Space_"@
}

/// A text to write to a file.
#[derive(Debug)]
pub struct FileWrite {
    pub path: String,
    pub contents: String,
}

/// The catalog of one invocation and the buffers that hold its text.
#[derive(Debug)]
pub struct Context {
    dir: String,
    db: DataBase,
    config: Config,
    /// Whether the buffers were written back.
    terminated: bool,
    /// The text of the database file.
    db_buf: String,
    /// The text of the configuration file.
    conf_buf: String,
}

impl Context {
    pub open spec fn wf(&self) -> bool {
        self.spec_db().wf() && self.spec_config().wf()
    }

    pub closed spec fn spec_dir(&self) -> Seq<char> {
        self.dir@
    }

    pub closed spec fn spec_db(&self) -> DataBase {
        self.db
    }

    pub closed spec fn spec_config(&self) -> Config {
        self.config
    }

    pub closed spec fn spec_terminated(&self) -> bool {
        self.terminated
    }

    pub closed spec fn spec_db_buf(&self) -> Seq<char> {
        self.db_buf@
    }

    pub closed spec fn spec_conf_buf(&self) -> Seq<char> {
        self.conf_buf@
    }

    /// A context over the directory `dir`, holding the catalog read from the
    /// texts `db_buf` and `conf_buf`.
    pub fn new(dir: String, db: DataBase, config: Config, db_buf: String, conf_buf: String) -> (r:
        Context)
        requires
            db.wf(),
            config.wf(),
        ensures
            r.wf(),
            r.spec_dir() == dir@,
            r.spec_db() == db,
            r.spec_config() == config,
            !r.spec_terminated(),
            r.spec_db_buf() == db_buf@,
            r.spec_conf_buf() == conf_buf@,
    {
        Context { dir, db, config, terminated: false, db_buf, conf_buf }
    }

    /// The spaces.
    pub fn db(&self) -> (r: &DataBase)
        ensures
            *r == self.spec_db(),
    {
        &self.db
    }

    /// The trees.
    pub fn config(&self) -> (r: &Config)
        ensures
            *r == self.spec_config(),
    {
        &self.config
    }

    /// The spaces, to change them.
    pub fn db_mut(&mut self) -> (r: &mut DataBase)
        ensures
            *r == old(self).spec_db(),
            final(self).spec_db() == *final(r),
            final(self).spec_dir() == old(self).spec_dir(),
            final(self).spec_config() == old(self).spec_config(),
            final(self).spec_terminated() == old(self).spec_terminated(),
            final(self).spec_db_buf() == old(self).spec_db_buf(),
            final(self).spec_conf_buf() == old(self).spec_conf_buf(),
    {
        &mut self.db
    }

    /// The trees, to change them.
    pub fn config_mut(&mut self) -> (r: &mut Config)
        ensures
            *r == old(self).spec_config(),
            final(self).spec_config() == *final(r),
            final(self).spec_dir() == old(self).spec_dir(),
            final(self).spec_db() == old(self).spec_db(),
            final(self).spec_terminated() == old(self).spec_terminated(),
            final(self).spec_db_buf() == old(self).spec_db_buf(),
            final(self).spec_conf_buf() == old(self).spec_conf_buf(),
    {
        &mut self.config
    }

    /// Whether the buffers were written back.
    pub fn terminated(&self) -> (r: bool)
        ensures
            r == self.spec_terminated(),
    {
        self.terminated
    }

    /// Stores `text`, the serialised database, as the database file's text.
    pub fn write_db_to_buf(&mut self, text: String)
        ensures
            final(self).spec_db_buf() == text@,
            final(self).spec_dir() == old(self).spec_dir(),
            final(self).spec_db() == old(self).spec_db(),
            final(self).spec_config() == old(self).spec_config(),
            final(self).spec_terminated() == old(self).spec_terminated(),
            final(self).spec_conf_buf() == old(self).spec_conf_buf(),
    {
        self.db_buf = text;
    }

    /// Stores `text`, the serialised configuration, as the configuration
    /// file's text.
    pub fn write_conf_to_buf(&mut self, text: String)
        ensures
            final(self).spec_conf_buf() == text@,
            final(self).spec_dir() == old(self).spec_dir(),
            final(self).spec_db() == old(self).spec_db(),
            final(self).spec_config() == old(self).spec_config(),
            final(self).spec_terminated() == old(self).spec_terminated(),
            final(self).spec_db_buf() == old(self).spec_db_buf(),
    {
        self.conf_buf = text;
    }

    /// Ends the invocation: stores the serialised database and configuration
    /// as the buffers' texts and returns the two files to write, the
    /// database first.
    pub fn terminate(&mut self, db_text: String, conf_text: String) -> (r: Vec<FileWrite>)
        ensures
            final(self).spec_terminated(),
            final(self).spec_db_buf() == db_text@,
            final(self).spec_conf_buf() == conf_text@,
            final(self).spec_dir() == old(self).spec_dir(),
            final(self).spec_db() == old(self).spec_db(),
            final(self).spec_config() == old(self).spec_config(),
            r@.len() == 2,
            r@[0].path@ == join_path(old(self).spec_dir(), db_file_name()),
            r@[0].contents@ == db_text@,
            r@[1].path@ == join_path(old(self).spec_dir(), conf_file_name()),
            r@[1].contents@ == conf_text@,
    {
        self.terminated = true;
        self.write_db_to_buf(db_text);
        let db_write = FileWrite {
            path: Context::db_file_path(self.dir.as_str()),
            contents: self.db_buf.clone(),
        };
        self.write_conf_to_buf(conf_text);
        let conf_write = FileWrite {
            path: Context::conf_file_path(self.dir.as_str()),
            contents: self.conf_buf.clone(),
        };
        vec![db_write, conf_write]
    }

    /// The path of the database file in the directory `dir`.
    pub fn db_file_path(dir: &str) -> (r: String)
        ensures
            r@ == join_path(dir@, db_file_name()),
    {
        join(dir, "db.ron")
    }

    /// The path of the configuration file in the directory `dir`.
    pub fn conf_file_path(dir: &str) -> (r: String)
        ensures
            r@ == join_path(dir@, conf_file_name()),
    {
        join(dir, "config.ron")
    }

    /// The tmux session name of the space `space`.
    pub fn session_name(&self, space: &str) -> (r: String)
        ensures
            r@ == session_prefix() + space@,
    {
        let mut sname = String::from_str("Space_");
        sname.append(space);
        sname
    }
}

} // verus!
