pub mod dtm;
pub mod gbq;
pub mod gbs;
pub mod gga;
pub mod gll;
pub mod glq;
pub mod gnq;
pub mod gns;
pub mod gpq;
pub mod grs;
pub mod gsa;
pub mod gst;
pub mod gsv;
pub mod rmc;
pub mod txt;
pub mod vlw;
pub mod vtg;
pub mod zda;
