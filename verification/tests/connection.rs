use r2d2_postgres::connection::Connection;
use r2d2_postgres::generic::GenericConnection;
use r2d2_postgres::transaction::Transaction;
use std::cell::RefCell;
use std::rc::Rc;
use std::sync::Arc;

/// A stand-in for the server: it numbers the statements that it prepares
/// and records every query that it was asked to prepare.
struct Server {
    asked: Vec<String>,
    refuse: bool,
}

impl Server {
    fn new() -> Server {
        Server { asked: Vec::new(), refuse: false }
    }

    fn prepare(&mut self, query: &str) -> Result<usize, String> {
        self.asked.push(query.to_string());
        if self.refuse {
            Err(format!("cannot prepare {}", query))
        } else {
            Ok(self.asked.len())
        }
    }
}

fn prepare(conn: &mut Connection<Server, usize>, query: &str) -> Result<Arc<usize>, String> {
    match conn.prepare(query) {
        Some(statement) => Ok(statement),
        None => {
            let outcome = conn.raw_mut().prepare(query);
            conn.prepared(query, outcome)
        }
    }
}

fn prepare_in(
    server: &mut Server,
    transaction: &mut Transaction<'_, usize>,
    query: &str,
) -> Result<Arc<usize>, String> {
    match transaction.prepare(query) {
        Some(statement) => Ok(statement),
        None => transaction.prepared(query, server.prepare(query)),
    }
}

/// Prepares on whatever offers the two halves, with `made` as the
/// server's answer to a miss.
fn serve<G: GenericConnection<usize>>(scope: &mut G, query: &str, made: usize) -> Arc<usize> {
    match scope.prepare(query) {
        Some(statement) => statement,
        None => scope.prepared::<()>(query, Ok(made)).unwrap(),
    }
}

#[test]
fn a_connection_caches_what_a_transaction_does_not() {
    let mut conn: Connection<(), usize> = Connection::new((), 3);
    assert_eq!(*serve(&mut conn, "A", 1), 1);
    assert_eq!(*serve(&mut conn, "A", 2), 1);
    let (_, mut transaction) = conn.transaction();
    assert_eq!(*serve(&mut transaction, "A", 3), 1);
    assert_eq!(*serve(&mut transaction, "B", 4), 4);
    assert_eq!(*serve(&mut transaction, "B", 5), 5);
}

#[test]
fn a_new_connection_has_an_empty_cache() {
    let conn: Connection<Server, usize> = Connection::new(Server::new(), 10);
    assert_eq!(conn.cached(), 0);
    assert!(conn.queries().is_empty());
}

#[test]
fn the_first_prepare_asks_the_server() {
    let mut conn = Connection::new(Server::new(), 10);
    assert!(conn.prepare("SELECT 1").is_none());
    let statement = prepare(&mut conn, "SELECT 1").unwrap();
    assert_eq!(*statement, 1);
    assert_eq!(conn.raw_mut().asked, ["SELECT 1"]);
    assert_eq!(conn.queries(), ["SELECT 1"]);
}

#[test]
fn preparing_twice_gives_one_statement_and_asks_once() {
    let mut conn = Connection::new(Server::new(), 10);
    let first = prepare(&mut conn, "SELECT 1").unwrap();
    let second = prepare(&mut conn, "SELECT 1").unwrap();
    assert!(Arc::ptr_eq(&first, &second));
    assert_eq!(conn.raw_mut().asked.len(), 1);
    let third = prepare(&mut conn, "SELECT 1").unwrap();
    assert!(Arc::ptr_eq(&first, &third));
    assert_eq!(conn.raw_mut().asked.len(), 1);
}

#[test]
fn prepared_hands_out_the_handle_that_it_caches() {
    let mut conn: Connection<Server, usize> = Connection::new(Server::new(), 10);
    let handed = conn.prepared::<String>("SELECT 1", Ok(41)).unwrap();
    let cached = conn.prepare("SELECT 1").unwrap();
    assert!(Arc::ptr_eq(&handed, &cached));
    assert_eq!(*cached, 41);
}

#[test]
fn a_failure_is_passed_on_and_nothing_is_cached() {
    let mut conn = Connection::new(Server::new(), 10);
    prepare(&mut conn, "SELECT 1").unwrap();
    conn.raw_mut().refuse = true;
    let error = prepare(&mut conn, "SELEKT").unwrap_err();
    assert_eq!(error, "cannot prepare SELEKT");
    assert_eq!(conn.queries(), ["SELECT 1"]);
    assert_eq!(conn.cached(), 1);
    let again = prepare(&mut conn, "SELEKT").unwrap_err();
    assert_eq!(again, "cannot prepare SELEKT");
    assert_eq!(conn.raw_mut().asked, ["SELECT 1", "SELEKT", "SELEKT"]);
}

#[test]
fn a_failure_does_not_disturb_a_hit() {
    let mut conn = Connection::new(Server::new(), 10);
    let first = prepare(&mut conn, "SELECT 1").unwrap();
    conn.raw_mut().refuse = true;
    let second = prepare(&mut conn, "SELECT 1").unwrap();
    assert!(Arc::ptr_eq(&first, &second));
}

#[test]
fn one_query_more_than_the_capacity_evicts_the_least_recent() {
    let mut conn = Connection::new(Server::new(), 3);
    for query in ["a", "b", "c", "d"] {
        prepare(&mut conn, query).unwrap();
    }
    assert_eq!(conn.queries(), ["b", "c", "d"]);
    assert_eq!(conn.cached(), 3);
    prepare(&mut conn, "a").unwrap();
    assert_eq!(conn.raw_mut().asked, ["a", "b", "c", "d", "a"]);
    assert_eq!(conn.queries(), ["c", "d", "a"]);
}

#[test]
fn a_lookup_protects_from_the_next_eviction() {
    let mut conn = Connection::new(Server::new(), 3);
    for query in ["a", "b", "c"] {
        prepare(&mut conn, query).unwrap();
    }
    prepare(&mut conn, "a").unwrap();
    prepare(&mut conn, "d").unwrap();
    assert_eq!(conn.queries(), ["c", "a", "d"]);
    assert!(conn.prepare("b").is_none());
    assert!(conn.prepare("a").is_some());
}

#[test]
fn with_capacity_zero_every_prepare_asks_the_server() {
    let mut conn = Connection::new(Server::new(), 0);
    let first = prepare(&mut conn, "SELECT 1").unwrap();
    let second = prepare(&mut conn, "SELECT 1").unwrap();
    let third = prepare(&mut conn, "SELECT 1").unwrap();
    assert_eq!((*first, *second, *third), (1, 2, 3));
    assert!(!Arc::ptr_eq(&first, &second));
    assert_eq!(conn.raw_mut().asked, ["SELECT 1", "SELECT 1", "SELECT 1"]);
    assert_eq!(conn.cached(), 0);
}

#[test]
fn two_connections_do_not_see_each_other() {
    let mut one = Connection::new(Server::new(), 5);
    let mut other = Connection::new(Server::new(), 5);
    let first = prepare(&mut one, "SELECT 1").unwrap();
    assert!(other.prepare("SELECT 1").is_none());
    let second = prepare(&mut other, "SELECT 1").unwrap();
    assert!(!Arc::ptr_eq(&first, &second));
    assert_eq!(one.raw_mut().asked, ["SELECT 1"]);
    assert_eq!(other.raw_mut().asked, ["SELECT 1"]);
    prepare(&mut other, "SELECT 2").unwrap();
    assert_eq!(one.queries(), ["SELECT 1"]);
    assert_eq!(other.queries(), ["SELECT 1", "SELECT 2"]);
    let again = prepare(&mut one, "SELECT 1").unwrap();
    assert!(Arc::ptr_eq(&first, &again));
}

#[test]
fn capacity_two_a_b_a_c_leaves_a_and_c() {
    let mut conn = Connection::new(Server::new(), 2);
    prepare(&mut conn, "A").unwrap();
    assert_eq!(conn.queries(), ["A"]);
    prepare(&mut conn, "B").unwrap();
    assert_eq!(conn.queries(), ["A", "B"]);
    prepare(&mut conn, "A").unwrap();
    assert_eq!(conn.queries(), ["B", "A"]);
    prepare(&mut conn, "C").unwrap();
    assert_eq!(conn.queries(), ["A", "C"]);
    assert_eq!(conn.raw_mut().asked, ["A", "B", "C"]);
    assert!(conn.prepare("B").is_none());
}

#[test]
fn raw_mut_bypasses_the_cache() {
    let mut conn = Connection::new(Server::new(), 2);
    prepare(&mut conn, "A").unwrap();
    conn.raw_mut().prepare("B").unwrap();
    assert_eq!(conn.queries(), ["A"]);
    assert_eq!(conn.raw_mut().asked, ["A", "B"]);
}

#[test]
fn a_transaction_is_served_from_the_cache_of_its_connection() {
    let mut conn = Connection::new(Server::new(), 3);
    let before = prepare(&mut conn, "SELECT 1").unwrap();
    {
        let (server, mut transaction) = conn.transaction();
        let inside = prepare_in(server, &mut transaction, "SELECT 1").unwrap();
        assert!(Arc::ptr_eq(&before, &inside));
        assert_eq!(server.asked, ["SELECT 1"]);
    }
    assert_eq!(conn.raw_mut().asked, ["SELECT 1"]);
}

#[test]
fn a_hit_in_a_transaction_counts_as_a_use() {
    let mut conn = Connection::new(Server::new(), 2);
    prepare(&mut conn, "A").unwrap();
    prepare(&mut conn, "B").unwrap();
    {
        let (server, mut transaction) = conn.transaction();
        prepare_in(server, &mut transaction, "A").unwrap();
    }
    assert_eq!(conn.queries(), ["B", "A"]);
    prepare(&mut conn, "C").unwrap();
    assert_eq!(conn.queries(), ["A", "C"]);
}

#[test]
fn a_statement_prepared_in_a_transaction_is_not_cached() {
    let mut conn = Connection::new(Server::new(), 3);
    prepare(&mut conn, "A").unwrap();
    {
        let (server, mut transaction) = conn.transaction();
        let first = prepare_in(server, &mut transaction, "T").unwrap();
        let second = prepare_in(server, &mut transaction, "T").unwrap();
        assert!(!Arc::ptr_eq(&first, &second));
        assert_eq!((*first, *second), (2, 3));
        assert_eq!(server.asked, ["A", "T", "T"]);
    }
    assert_eq!(conn.queries(), ["A"]);
    assert!(conn.prepare("T").is_none());
}

#[test]
fn a_failure_in_a_transaction_is_passed_on() {
    let mut conn = Connection::new(Server::new(), 3);
    prepare(&mut conn, "A").unwrap();
    {
        let (server, mut transaction) = conn.transaction();
        server.refuse = true;
        let error = prepare_in(server, &mut transaction, "T").unwrap_err();
        assert_eq!(error, "cannot prepare T");
        assert!(prepare_in(server, &mut transaction, "A").is_ok());
    }
    assert_eq!(conn.queries(), ["A"]);
}

#[test]
fn a_nested_transaction_works_on_the_same_cache() {
    let mut conn = Connection::new(Server::new(), 3);
    let a = prepare(&mut conn, "A").unwrap();
    let b = prepare(&mut conn, "B").unwrap();
    {
        let (server, mut outer) = conn.transaction();
        {
            let mut inner = outer.transaction();
            let found = prepare_in(server, &mut inner, "A").unwrap();
            assert!(Arc::ptr_eq(&found, &a));
            {
                let mut innermost = inner.transaction();
                let found = prepare_in(server, &mut innermost, "B").unwrap();
                assert!(Arc::ptr_eq(&found, &b));
                assert!(innermost.prepare("T").is_none());
            }
        }
        let found = prepare_in(server, &mut outer, "A").unwrap();
        assert!(Arc::ptr_eq(&found, &a));
        assert_eq!(server.asked, ["A", "B"]);
    }
    assert_eq!(conn.queries(), ["B", "A"]);
}

#[test]
fn a_transaction_on_a_cache_of_its_own_making() {
    let mut statements = r2d2_postgres::cache::StatementCache::new(2);
    statements.put("A", Arc::new(1usize));
    let mut transaction = Transaction::new(&mut statements);
    assert_eq!(*transaction.prepare("A").unwrap(), 1);
    assert!(transaction.prepare("B").is_none());
    let fresh = transaction.prepared::<String>("B", Ok(2)).unwrap();
    assert_eq!(*fresh, 2);
    assert!(transaction.prepare("B").is_none());
    assert_eq!(transaction.prepared::<String>("B", Err("no".to_string())).unwrap_err(), "no");
    assert_eq!(transaction.statements.len(), 1);
}

/// A statement or a raw connection that records when it is released.
struct Recorded {
    name: &'static str,
    log: Rc<RefCell<Vec<&'static str>>>,
}

impl Drop for Recorded {
    fn drop(&mut self) {
        self.log.borrow_mut().push(self.name);
    }
}

fn recorded_connection(log: &Rc<RefCell<Vec<&'static str>>>) -> Connection<Recorded, Recorded> {
    let raw = Recorded { name: "connection", log: Rc::clone(log) };
    let mut conn = Connection::new(raw, 4);
    for name in ["first", "second", "third"] {
        let statement = Recorded { name, log: Rc::clone(log) };
        conn.prepared::<()>(name, Ok(statement)).unwrap();
    }
    conn
}

#[test]
fn teardown_releases_every_statement_and_keeps_the_connection() {
    let log = Rc::new(RefCell::new(Vec::new()));
    let mut conn = recorded_connection(&log);
    assert!(log.borrow().is_empty());
    conn.teardown();
    assert_eq!(*log.borrow(), ["first", "second", "third"]);
    assert_eq!(conn.cached(), 0);
    let late = Recorded { name: "late", log: Rc::clone(&log) };
    conn.prepared::<()>("late", Ok(late)).unwrap();
    assert_eq!(conn.cached(), 0);
    assert!(conn.prepare("late").is_none());
    let raw = conn.release();
    assert_eq!(*log.borrow(), ["first", "second", "third", "late"]);
    drop(raw);
    assert_eq!(*log.borrow(), ["first", "second", "third", "late", "connection"]);
}

#[test]
fn close_releases_the_statements_before_the_connection() {
    let log = Rc::new(RefCell::new(Vec::new()));
    let conn = recorded_connection(&log);
    let raw = conn.close();
    assert_eq!(*log.borrow(), ["first", "second", "third"]);
    drop(raw);
    assert_eq!(*log.borrow(), ["first", "second", "third", "connection"]);
}

#[test]
fn dropping_releases_the_statements_before_the_connection() {
    let log = Rc::new(RefCell::new(Vec::new()));
    let conn = recorded_connection(&log);
    drop(conn);
    assert_eq!(log.borrow().len(), 4);
    assert_eq!(log.borrow()[3], "connection");
}

#[test]
fn a_handle_that_is_held_keeps_its_statement_over_teardown() {
    let log = Rc::new(RefCell::new(Vec::new()));
    let mut conn = recorded_connection(&log);
    let held = conn.prepare("second").unwrap();
    conn.teardown();
    assert_eq!(*log.borrow(), ["first", "third"]);
    assert_eq!(held.name, "second");
    drop(held);
    assert_eq!(*log.borrow(), ["first", "third", "second"]);
    drop(conn);
    assert_eq!(*log.borrow(), ["first", "third", "second", "connection"]);
}
