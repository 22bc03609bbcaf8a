use deq::embedded::{
    Transaction, TransactionData, TransactionError, TransactionErrorType,
};

#[derive(Clone, PartialEq, Eq)]
struct Point {
    x: i32,
    y: i32,
    transaction_data: TransactionData<Point>,
}

impl Point {
    fn new(x: i32, y: i32) -> Self {
        Point { x, y, transaction_data: TransactionData::new() }
    }
}

impl Transaction for Point {
    fn begin(&mut self) {
        let snapshot = self.clone();
        self.transaction_data.record(snapshot);
    }

    fn commit(&mut self) -> Result<(), TransactionError> {
        self.transaction_data.commit()
    }

    fn revert(&mut self) -> Result<(), TransactionError> {
        let mut prev = self.transaction_data.revert()?;
        std::mem::swap(&mut prev.transaction_data, &mut self.transaction_data);
        *self = prev;
        Ok(())
    }

    fn len(&self) -> usize {
        self.transaction_data.len()
    }
}

#[test]
fn aggregate_reverts_newest_change() {
    let mut p = Point::new(1, 1);
    p.begin();
    p.x = 2;
    p.begin();
    p.y = 3;
    assert_eq!(p.len(), 2);
    assert!(p.revert().is_ok());
    assert_eq!((p.x, p.y), (2, 1));
    assert_eq!(p.len(), 1);
    assert!(p.revert().is_ok());
    assert_eq!((p.x, p.y), (1, 1));
    assert_eq!(p.len(), 0);
    assert_eq!(p.revert().unwrap_err().cause, TransactionErrorType::TransactionNotStarted);
}

#[test]
fn aggregate_commit_then_revert_keeps_committed_change() {
    let mut p = Point::new(1, 1);
    p.begin();
    p.x = 2;
    p.begin();
    p.y = 3;
    assert!(p.commit().is_ok());
    assert_eq!(p.len(), 1);
    assert_eq!((p.x, p.y), (2, 3));
    assert!(p.revert().is_ok());
    assert_eq!((p.x, p.y), (2, 1));
    assert_eq!(p.len(), 0);
    assert_eq!(p.revert().unwrap_err().cause, TransactionErrorType::TransactionNotStarted);
    assert_eq!((p.x, p.y), (2, 1));
}

#[test]
fn aggregate_commits_oldest_change() {
    let mut data: TransactionData<u32> = TransactionData::new();
    data.record(10);
    data.record(20);
    data.record(30);
    assert!(data.commit().is_ok());
    assert_eq!(data.t, vec![20, 30]);
    assert_eq!(data.revert().unwrap(), 30);
    assert_eq!(data.len(), 1);
    assert!(data.commit().is_ok());
    assert_eq!(data.len(), 0);
    let err = data.commit().unwrap_err();
    assert_eq!(err.cause, TransactionErrorType::TransactionNotStarted);
    assert!(data.revert().is_err());
}

#[test]
fn transaction_data_orders_by_snapshots() {
    let mut a: TransactionData<u32> = TransactionData::new();
    let mut b: TransactionData<u32> = TransactionData::new();
    assert!(a == b);
    a.record(1);
    b.record(2);
    assert!(a < b);
    assert!(a != b);
}

#[test]
fn error_describes_cause() {
    let e = TransactionError::new(TransactionErrorType::TransactionNotStarted);
    assert_eq!(e.cause, TransactionErrorType::TransactionNotStarted);
    assert_eq!(e.to_string(), "Transaction not started");
}
