//! The card store: categories, pools and cards persisted in SQLite.
//!
//! The store is the engine's single system of record, reached through an open
//! `rusqlite::Connection` owned by the surrounding application. Every store
//! operation here is a thin, trusted call into rusqlite; the engine's verified
//! logic treats whatever comes back as arbitrary data and is proved correct
//! for every possible answer.

use vstd::prelude::*;

use crate::error::EngineError;

verus! {

/// A top-level grouping of pools, identified by its unique name.
#[derive(Debug)]
pub struct Category {
    pub name: String,
}

/// A bucket of related cards inside a category. `category_name` is a nullable
/// foreign key: deleting a category leaves its pools with no category.
#[derive(Debug)]
pub struct Pool {
    pub id: i32,
    pub category_name: Option<String>,
}

/// One flashcard. Empty text or an empty image path stands for an absent
/// face half; a card missing `id` or `pool_id` cannot be used for
/// question-building and is skipped by the builder.
#[derive(Debug)]
pub struct Card {
    pub id: Option<i32>,
    pub front: String,
    pub back: String,
    pub front_image: String,
    pub back_image: String,
    pub score: Option<i32>,
    pub pool_id: Option<i32>,
    pub category_name: Option<String>,
}

#[verifier::external_type_specification]
#[verifier::external_body]
pub struct ExConnection(rusqlite::Connection);

#[verifier::external_type_specification]
#[verifier::external_body]
pub struct ExSqlError(rusqlite::Error);

fn clone_opt_string(o: &Option<String>) -> (r: Option<String>)
    ensures
        r == *o,
{
    match o {
        None => None,
        Some(s) => Some(s.clone()),
    }
}

impl Clone for Category {
    fn clone(&self) -> (r: Self)
        ensures
            r == *self,
    {
        Category { name: self.name.clone() }
    }
}

impl Clone for Pool {
    fn clone(&self) -> (r: Self)
        ensures
            r == *self,
    {
        Pool { id: self.id, category_name: clone_opt_string(&self.category_name) }
    }
}

impl Clone for Card {
    fn clone(&self) -> (r: Self)
        ensures
            r == *self,
    {
        Card {
            id: self.id,
            front: self.front.clone(),
            back: self.back.clone(),
            front_image: self.front_image.clone(),
            back_image: self.back_image.clone(),
            score: self.score,
            pool_id: self.pool_id,
            category_name: clone_opt_string(&self.category_name),
        }
    }
}

impl Category {
    /// Relies on rusqlite's `Connection::execute`: inserts one Category row.
    #[verifier::external_body]
    pub fn new(conn: &rusqlite::Connection, name: String) -> (r: Result<(), rusqlite::Error>) {
        match conn.execute("INSERT INTO Category(name) VALUES (?1)", (name,)) {
            Ok(_) => Ok(()),
            Err(err) => Err(err),
        }
    }

    pub fn add(conn: &rusqlite::Connection, src: Category) -> (r: Result<(), rusqlite::Error>) {
        Self::new(conn, src.name)
    }

    /// Relies on rusqlite's `Connection::execute`: deletes the Category rows
    /// with the given name.
    #[verifier::external_body]
    pub fn delete(conn: &rusqlite::Connection, name: String) -> (r: Result<(), rusqlite::Error>) {
        match conn.execute("DELETE FROM Category WHERE name = ?1", (name,)) {
            Ok(_) => Ok(()),
            Err(err) => Err(err),
        }
    }

    /// Relies on rusqlite's `prepare` and `Statement::query_map`: one
    /// `Category` per row of the Category table.
    #[verifier::external_body]
    pub fn get_all(conn: &rusqlite::Connection) -> (r: Result<Vec<Category>, rusqlite::Error>) {
        let mut statement = conn.prepare("SELECT * FROM Category")?;
        let rows = statement.query_map([], |row| Ok(Category { name: row.get(0)? }))?;
        rows.collect()
    }

    /// Relies on rusqlite's `prepare` and `Statement::query_row`: the first
    /// Category row with the given name, or `QueryReturnedNoRows`.
    #[verifier::external_body]
    pub fn get_one(conn: &rusqlite::Connection, name: &str) -> (r: Result<
        Category,
        rusqlite::Error,
    >) {
        let mut statement = conn.prepare("SELECT * FROM Category WHERE name = ?1 LIMIT 1")?;
        let row = statement.query_row((name,), |row| row.get(0))?;
        Ok(Category { name: row })
    }
}

impl Pool {
    /// Relies on rusqlite's `Connection::execute`: inserts one Pool row.
    #[verifier::external_body]
    fn insert(conn: &rusqlite::Connection, id: i32, category_name: String) -> (r: Result<
        (),
        rusqlite::Error,
    >) {
        match conn.execute("INSERT INTO Pool(id, categoryName) VALUES (?1, ?2)", (id, category_name)) {
            Ok(_) => Ok(()),
            Err(err) => Err(err),
        }
    }

    pub fn new(conn: &rusqlite::Connection, id: i32, category_name: Option<String>) -> (r: Result<
        (),
        rusqlite::Error,
    >) {
        let actual_name: String = match category_name {
            Some(name) => name,
            None => String::new(),
        };
        Self::insert(conn, id, actual_name)
    }

    pub fn add(conn: &rusqlite::Connection, src: Pool) -> (r: Result<(), rusqlite::Error>) {
        Self::new(conn, src.id, src.category_name)
    }

    /// Relies on rusqlite's `Connection::execute`: deletes the Pool row with
    /// the given id.
    #[verifier::external_body]
    pub fn delete(conn: &rusqlite::Connection, id: i32) -> (r: Result<(), rusqlite::Error>) {
        match conn.execute("DELETE FROM Pool WHERE id = ?1", (id,)) {
            Ok(_) => Ok(()),
            Err(err) => Err(err),
        }
    }

    /// Relies on rusqlite's `prepare` and `Statement::query_map`: one `Pool`
    /// per row of the Pool table.
    #[verifier::external_body]
    pub fn get_all(conn: &rusqlite::Connection) -> (r: Result<Vec<Pool>, rusqlite::Error>) {
        let mut statement = conn.prepare("SELECT * FROM Pool")?;
        let rows = statement.query_map(
            [],
            |row| Ok(Pool { id: row.get(0)?, category_name: row.get(1)? }),
        )?;
        rows.collect()
    }

    /// Relies on rusqlite's `prepare` and `Statement::query_row`: the first
    /// Pool row with the given id, or `QueryReturnedNoRows`.
    #[verifier::external_body]
    pub fn get_by_id(conn: &rusqlite::Connection, id: i32) -> (r: Result<Pool, rusqlite::Error>) {
        let mut statement = conn.prepare("SELECT * FROM Pool WHERE id = ?1 LIMIT 1")?;
        let row = statement.query_row(
            (id,),
            |row| Ok(Pool { id: row.get(0)?, category_name: row.get(1)? }),
        )?;
        Ok(row)
    }

    /// Relies on rusqlite's `prepare` and `Statement::query_map`: one `Pool`
    /// per Pool row whose categoryName equals the given name.
    #[verifier::external_body]
    pub fn get_all_in_category(conn: &rusqlite::Connection, category_name: &str) -> (r: Result<
        Vec<Pool>,
        rusqlite::Error,
    >) {
        let mut statement = conn.prepare("SELECT * FROM Pool WHERE categoryName = ?1")?;
        let rows = statement.query_map(
            (category_name,),
            |row| Ok(Pool { id: row.get(0)?, category_name: row.get(1)? }),
        )?;
        rows.collect()
    }
}

impl Card {
    /// Relies on rusqlite's `Connection::execute`: inserts one Card row with
    /// the given column values.
    #[verifier::external_body]
    fn insert(
        conn: &rusqlite::Connection,
        id: i32,
        front: String,
        back: String,
        front_image: String,
        back_image: String,
        score: i32,
        pool_id: i32,
        category_name: String,
    ) -> (r: Result<(), rusqlite::Error>) {
        match conn.execute(
            "INSERT INTO Card(id, front, back, frontImage, backImage, score, poolId, categoryName) \
             VALUES (?1, ?2, ?3, ?4, ?5, ?6, ?7, ?8)",
            (id, front, back, front_image, back_image, score, pool_id, category_name),
        ) {
            Ok(_) => Ok(()),
            Err(err) => Err(err),
        }
    }

    /// Relies on rusqlite's `prepare` and `Statement::query_row`: the largest
    /// id in the Card table, or `QueryReturnedNoRows` on an empty table.
    #[verifier::external_body]
    fn latest_id(conn: &rusqlite::Connection) -> (r: Result<i32, rusqlite::Error>) {
        let mut statement = conn.prepare("SELECT id FROM Card ORDER BY id DESC LIMIT 1")?;
        statement.query_row([], |row| row.get(0))
    }

    /// Stores a card, assigning the next free id when the card carries none.
    pub fn add(conn: &rusqlite::Connection, src: Card) -> (r: Result<(), EngineError>)
        requires
            src.pool_id is Some,
            src.category_name is Some,
    {
        let latest: i32 = match Self::latest_id(conn) {
            Ok(id) => id,
            Err(_) => -1,
        };
        if latest == i32::MAX {
            return Err(EngineError::StoreFailed);
        }
        let id: i32 = match src.id {
            Some(id) => id,
            None => latest + 1,
        };
        let score: i32 = match src.score {
            Some(score) => score,
            None => 0,
        };
        let pool_id: i32 = match src.pool_id {
            Some(pool_id) => pool_id,
            None => return Err(EngineError::StoreFailed),
        };
        let category_name: String = match src.category_name {
            Some(name) => name,
            None => return Err(EngineError::StoreFailed),
        };
        match Self::insert(
            conn,
            id,
            src.front,
            src.back,
            src.front_image,
            src.back_image,
            score,
            pool_id,
            category_name,
        ) {
            Ok(_) => Ok(()),
            Err(_) => Err(EngineError::StoreFailed),
        }
    }

    /// Relies on rusqlite's `Connection::execute`: deletes the Card row with
    /// the given id.
    #[verifier::external_body]
    pub fn delete(conn: &rusqlite::Connection, id: i32) -> (r: Result<(), rusqlite::Error>) {
        match conn.execute("DELETE FROM Card WHERE id = ?1", (id,)) {
            Ok(_) => Ok(()),
            Err(err) => Err(err),
        }
    }

    /// Relies on rusqlite's `prepare` and `Statement::query_map`: one `Card`
    /// per row of the Card table, columns in table order.
    #[verifier::external_body]
    pub fn get_all(conn: &rusqlite::Connection) -> (r: Result<Vec<Card>, rusqlite::Error>) {
        let mut statement = conn.prepare("SELECT * FROM Card")?;
        let rows = statement.query_map([], |row| Ok(Card {
            id: row.get(0)?,
            front: row.get(1)?,
            back: row.get(2)?,
            front_image: row.get(3)?,
            back_image: row.get(4)?,
            score: row.get(5)?,
            pool_id: row.get(6)?,
            category_name: row.get(7)?,
        }))?;
        rows.collect()
    }

    /// Relies on rusqlite's `prepare` and `Statement::query_row`: the first
    /// Card row with the given id, or `QueryReturnedNoRows`. The WHERE
    /// clause admits only rows whose id equals the given integer, and
    /// rusqlite's `i32` decode accepts only exact SQLite integers, so a
    /// returned card bears the requested id.
    #[verifier::external_body]
    pub fn get_by_id(conn: &rusqlite::Connection, id: i32) -> (r: Result<Card, rusqlite::Error>)
        ensures
            r matches Ok(card) ==> card.id == Some(id),
    {
        let mut statement = conn.prepare("SELECT * FROM Card WHERE id = ?1 LIMIT 1")?;
        statement.query_row((id,), |row| Ok(Card {
            id: row.get(0)?,
            front: row.get(1)?,
            back: row.get(2)?,
            front_image: row.get(3)?,
            back_image: row.get(4)?,
            score: row.get(5)?,
            pool_id: row.get(6)?,
            category_name: row.get(7)?,
        }))
    }

    /// Relies on rusqlite's `prepare` and `Statement::query_map`: one `Card`
    /// per Card row whose poolId equals the given pool. The WHERE clause
    /// admits only rows whose poolId equals the given integer, and
    /// rusqlite's `i32` decode accepts only exact SQLite integers, so every
    /// returned card bears the requested pool id.
    #[verifier::external_body]
    pub fn get_in_pool(conn: &rusqlite::Connection, pool_id: i32) -> (r: Result<
        Vec<Card>,
        rusqlite::Error,
    >)
        ensures
            r matches Ok(cards) ==> forall|i: int| #![trigger cards@[i]]
                0 <= i < cards@.len() ==> cards@[i].pool_id == Some(pool_id),
    {
        let mut statement = conn.prepare("SELECT * FROM Card WHERE poolId = ?1")?;
        let rows = statement.query_map((pool_id,), |row| Ok(Card {
            id: row.get(0)?,
            front: row.get(1)?,
            back: row.get(2)?,
            front_image: row.get(3)?,
            back_image: row.get(4)?,
            score: row.get(5)?,
            pool_id: row.get(6)?,
            category_name: row.get(7)?,
        }))?;
        rows.collect()
    }

    /// Relies on rusqlite's `prepare` and `Statement::query_map`: one `Card`
    /// per Card row whose categoryName equals the given name.
    #[verifier::external_body]
    pub fn get_in_category(conn: &rusqlite::Connection, category_name: &str) -> (r: Result<
        Vec<Card>,
        rusqlite::Error,
    >) {
        let mut statement = conn.prepare("SELECT * FROM Card WHERE categoryName = ?1")?;
        let rows = statement.query_map((category_name,), |row| Ok(Card {
            id: row.get(0)?,
            front: row.get(1)?,
            back: row.get(2)?,
            front_image: row.get(3)?,
            back_image: row.get(4)?,
            score: row.get(5)?,
            pool_id: row.get(6)?,
            category_name: row.get(7)?,
        }))?;
        rows.collect()
    }

    /// Relies on rusqlite's `Connection::execute`: writes the given score to
    /// the Card row with the given id, and on success reports back exactly
    /// the score it was asked to write.
    #[verifier::external_body]
    pub fn change_score(conn: &rusqlite::Connection, id: i32, score: i32) -> (r: Result<
        i32,
        rusqlite::Error,
    >)
        ensures
            r is Ok ==> r->Ok_0 == score,
    {
        match conn.execute("UPDATE Card SET score = ?2 WHERE id = ?1", (id, score)) {
            Ok(_) => Ok(score),
            Err(err) => Err(err),
        }
    }

    /// Reads the stored score of one card; `None` when the row holds no score.
    pub fn get_score(conn: &rusqlite::Connection, id: i32) -> (r: Result<Option<i32>, EngineError>)
        ensures
            r is Err ==> r->Err_0 == EngineError::StoreFailed,
    {
        match Card::get_by_id(conn, id) {
            Ok(card) => Ok(card.score),
            Err(_) => Err(EngineError::StoreFailed),
        }
    }
}

} // verus!
