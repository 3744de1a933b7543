use vstd::prelude::*;

verus! {

/// The first message on a new peer connection. Its variants stand in their
/// wire order: `PierceFirewall` is 0 and `PeerInit` is 1.
#[derive(PartialEq, Eq, Structural, Debug, Clone, Copy)]
pub enum PeerInitCode {
    PierceFirewall,
    PeerInit,
}

/// Whether a number is a peer code.
pub open spec fn is_peer_code(number: u8) -> bool {
    match number {
        4 | 5 | 9 | 15 | 16 | 36 | 37 | 40 | 41 | 43 | 44 | 46 | 50 | 51 => true,
        _ => false,
    }
}

/// A peer code: the number that stands for it on the wire. A code
/// is made only from a number that is one of the known codes, and gives its
/// number back only through `From`, so it cannot be cast to a number that is
/// not its own.
#[derive(PartialEq, Eq, Structural, Debug, Clone, Copy)]
pub struct PeerCode {
    number: u8,
}

impl View for PeerCode {
    type V = u8;

    /// The number of the code.
    closed spec fn view(&self) -> u8 {
        self.number
    }
}

/// The code with a given number.
pub closed spec fn peer_code_numbered(number: u8) -> PeerCode {
    PeerCode { number }
}

impl PeerCode {
    /// A code always has one of the known numbers.
    #[verifier::type_invariant]
    closed spec fn known_number(self) -> bool {
        is_peer_code(self.number)
    }

    /// `SharedFileListRequest`, number 4 on the wire.
    #[allow(non_snake_case)]
    pub fn SharedFileListRequest() -> (code: PeerCode)
        ensures
            code@ == 4,
    {
        PeerCode { number: 4 }
    }

    /// `SharedFileListResponse`, number 5 on the wire.
    #[allow(non_snake_case)]
    pub fn SharedFileListResponse() -> (code: PeerCode)
        ensures
            code@ == 5,
    {
        PeerCode { number: 5 }
    }

    /// `FileSearchResponse`, number 9 on the wire.
    #[allow(non_snake_case)]
    pub fn FileSearchResponse() -> (code: PeerCode)
        ensures
            code@ == 9,
    {
        PeerCode { number: 9 }
    }

    /// `UserInfoRequest`, number 15 on the wire.
    #[allow(non_snake_case)]
    pub fn UserInfoRequest() -> (code: PeerCode)
        ensures
            code@ == 15,
    {
        PeerCode { number: 15 }
    }

    /// `UserInfoResponse`, number 16 on the wire.
    #[allow(non_snake_case)]
    pub fn UserInfoResponse() -> (code: PeerCode)
        ensures
            code@ == 16,
    {
        PeerCode { number: 16 }
    }

    /// `FolderContentsRequest`, number 36 on the wire.
    #[allow(non_snake_case)]
    pub fn FolderContentsRequest() -> (code: PeerCode)
        ensures
            code@ == 36,
    {
        PeerCode { number: 36 }
    }

    /// `FolderContentsResponse`, number 37 on the wire.
    #[allow(non_snake_case)]
    pub fn FolderContentsResponse() -> (code: PeerCode)
        ensures
            code@ == 37,
    {
        PeerCode { number: 37 }
    }

    /// `TransferRequest`, number 40 on the wire.
    #[allow(non_snake_case)]
    pub fn TransferRequest() -> (code: PeerCode)
        ensures
            code@ == 40,
    {
        PeerCode { number: 40 }
    }

    /// `UploadResponse`, number 41 on the wire.
    #[allow(non_snake_case)]
    pub fn UploadResponse() -> (code: PeerCode)
        ensures
            code@ == 41,
    {
        PeerCode { number: 41 }
    }

    /// `QueueUpload`, number 43 on the wire.
    #[allow(non_snake_case)]
    pub fn QueueUpload() -> (code: PeerCode)
        ensures
            code@ == 43,
    {
        PeerCode { number: 43 }
    }

    /// `PlaceInQueueResponse`, number 44 on the wire.
    #[allow(non_snake_case)]
    pub fn PlaceInQueueResponse() -> (code: PeerCode)
        ensures
            code@ == 44,
    {
        PeerCode { number: 44 }
    }

    /// `UploadFailed`, number 46 on the wire.
    #[allow(non_snake_case)]
    pub fn UploadFailed() -> (code: PeerCode)
        ensures
            code@ == 46,
    {
        PeerCode { number: 46 }
    }

    /// `UploadDenied`, number 50 on the wire.
    #[allow(non_snake_case)]
    pub fn UploadDenied() -> (code: PeerCode)
        ensures
            code@ == 50,
    {
        PeerCode { number: 50 }
    }

    /// `PlaceInQueueRequest`, number 51 on the wire.
    #[allow(non_snake_case)]
    pub fn PlaceInQueueRequest() -> (code: PeerCode)
        ensures
            code@ == 51,
    {
        PeerCode { number: 51 }
    }
}

impl From<PeerCode> for u8 {
    fn from(value: PeerCode) -> (number: u8)
        ensures
            number == value@,
            is_peer_code(number),
    {
        proof {
            use_type_invariant(&value);
        }
        value.number
    }
}

impl vstd::std_specs::convert::FromSpecImpl<PeerCode> for u8 {
    open spec fn obeys_from_spec() -> bool {
        true
    }

    open spec fn from_spec(value: PeerCode) -> u8 {
        value@
    }
}

impl TryFrom<u8> for PeerCode {
    type Error = ();

    /// The code with this number, or an error when no known code has it.
    fn try_from(value: u8) -> (code: Result<PeerCode, ()>)
        ensures
            code == (if is_peer_code(value) {
                Ok(peer_code_numbered(value))
            } else {
                Err(())
            }),
    {
        match value {
            4 | 5 | 9 | 15 | 16 | 36 | 37 | 40 | 41 | 43 | 44 | 46 | 50 | 51 => Ok(PeerCode { number: value }),
            _ => Err(()),
        }
    }
}

impl vstd::std_specs::convert::TryFromSpecImpl<u8> for PeerCode {
    open spec fn obeys_try_from_spec() -> bool {
        true
    }

    open spec fn try_from_spec(value: u8) -> Result<PeerCode, ()> {
        if is_peer_code(value) {
            Ok(peer_code_numbered(value))
        } else {
            Err(())
        }
    }
}

/// The code made from a number has that number.
pub proof fn lemma_peer_code_numbered(number: u8)
    ensures
        peer_code_numbered(number)@ == number,
{
}

/// A peer code is exactly its number: the code made from a code's number
/// is that code. With the contracts of `from` and `try_from`, converting a
/// code to its number and back gives the same code, and a number that
/// converts to a code is that code's number.
pub proof fn lemma_peer_code_roundtrip(code: PeerCode)
    ensures
        peer_code_numbered(code@) == code,
{
}

/// Whether a number is a server code.
pub open spec fn is_server_code(number: u32) -> bool {
    match number {
        1 | 2 | 3 | 5 | 6 | 7 | 13 | 14 | 15 | 16 | 17 | 18 | 22 | 23 | 26 | 28 | 32 | 35 | 36 | 41 | 42 | 51 | 52 | 54 | 56 | 57 | 64 | 66 | 69 | 71 | 83 | 84 | 92 | 93 | 100 | 102 | 103 | 104 | 110 | 111 | 112 | 113 | 114 | 115 | 116 | 117 | 118 | 120 | 121 | 123 | 126 | 127 | 130 | 133 | 134 | 135 | 136 | 137 | 139 | 140 | 141 | 142 | 143 | 144 | 145 | 146 | 148 | 149 | 150 | 151 | 152 | 160 | 1001 | 1003 => true,
        _ => false,
    }
}

/// A server code: the number that stands for it on the wire. A code
/// is made only from a number that is one of the known codes, and gives its
/// number back only through `From`, so it cannot be cast to a number that is
/// not its own.
#[derive(PartialEq, Eq, Structural, Debug, Clone, Copy)]
pub struct ServerCode {
    number: u32,
}

impl View for ServerCode {
    type V = u32;

    /// The number of the code.
    closed spec fn view(&self) -> u32 {
        self.number
    }
}

/// The code with a given number.
pub closed spec fn server_code_numbered(number: u32) -> ServerCode {
    ServerCode { number }
}

impl ServerCode {
    /// A code always has one of the known numbers.
    #[verifier::type_invariant]
    closed spec fn known_number(self) -> bool {
        is_server_code(self.number)
    }

    /// `Login`, number 1 on the wire.
    #[allow(non_snake_case)]
    pub fn Login() -> (code: ServerCode)
        ensures
            code@ == 1,
    {
        ServerCode { number: 1 }
    }

    /// `SetListenPort`, number 2 on the wire.
    #[allow(non_snake_case)]
    pub fn SetListenPort() -> (code: ServerCode)
        ensures
            code@ == 2,
    {
        ServerCode { number: 2 }
    }

    /// `GetPeerAddress`, number 3 on the wire.
    #[allow(non_snake_case)]
    pub fn GetPeerAddress() -> (code: ServerCode)
        ensures
            code@ == 3,
    {
        ServerCode { number: 3 }
    }

    /// `WatchUser`, number 5 on the wire.
    #[allow(non_snake_case)]
    pub fn WatchUser() -> (code: ServerCode)
        ensures
            code@ == 5,
    {
        ServerCode { number: 5 }
    }

    /// `UnwatchUser`, number 6 on the wire.
    #[allow(non_snake_case)]
    pub fn UnwatchUser() -> (code: ServerCode)
        ensures
            code@ == 6,
    {
        ServerCode { number: 6 }
    }

    /// `GetUserStatus`, number 7 on the wire.
    #[allow(non_snake_case)]
    pub fn GetUserStatus() -> (code: ServerCode)
        ensures
            code@ == 7,
    {
        ServerCode { number: 7 }
    }

    /// `SayInChatRoom`, number 13 on the wire.
    #[allow(non_snake_case)]
    pub fn SayInChatRoom() -> (code: ServerCode)
        ensures
            code@ == 13,
    {
        ServerCode { number: 13 }
    }

    /// `JoinRoom`, number 14 on the wire.
    #[allow(non_snake_case)]
    pub fn JoinRoom() -> (code: ServerCode)
        ensures
            code@ == 14,
    {
        ServerCode { number: 14 }
    }

    /// `LeaveRoom`, number 15 on the wire.
    #[allow(non_snake_case)]
    pub fn LeaveRoom() -> (code: ServerCode)
        ensures
            code@ == 15,
    {
        ServerCode { number: 15 }
    }

    /// `UserJoinedRoom`, number 16 on the wire.
    #[allow(non_snake_case)]
    pub fn UserJoinedRoom() -> (code: ServerCode)
        ensures
            code@ == 16,
    {
        ServerCode { number: 16 }
    }

    /// `UserLeftRoom`, number 17 on the wire.
    #[allow(non_snake_case)]
    pub fn UserLeftRoom() -> (code: ServerCode)
        ensures
            code@ == 17,
    {
        ServerCode { number: 17 }
    }

    /// `ConnectToPeer`, number 18 on the wire.
    #[allow(non_snake_case)]
    pub fn ConnectToPeer() -> (code: ServerCode)
        ensures
            code@ == 18,
    {
        ServerCode { number: 18 }
    }

    /// `PrivateMessages`, number 22 on the wire.
    #[allow(non_snake_case)]
    pub fn PrivateMessages() -> (code: ServerCode)
        ensures
            code@ == 22,
    {
        ServerCode { number: 22 }
    }

    /// `AcknowledgePrivateMessage`, number 23 on the wire.
    #[allow(non_snake_case)]
    pub fn AcknowledgePrivateMessage() -> (code: ServerCode)
        ensures
            code@ == 23,
    {
        ServerCode { number: 23 }
    }

    /// `FileSearch`, number 26 on the wire.
    #[allow(non_snake_case)]
    pub fn FileSearch() -> (code: ServerCode)
        ensures
            code@ == 26,
    {
        ServerCode { number: 26 }
    }

    /// `SetOnlineStatus`, number 28 on the wire.
    #[allow(non_snake_case)]
    pub fn SetOnlineStatus() -> (code: ServerCode)
        ensures
            code@ == 28,
    {
        ServerCode { number: 28 }
    }

    /// `Ping`, number 32 on the wire.
    #[allow(non_snake_case)]
    pub fn Ping() -> (code: ServerCode)
        ensures
            code@ == 32,
    {
        ServerCode { number: 32 }
    }

    /// `SharedFoldersAndFiles`, number 35 on the wire.
    #[allow(non_snake_case)]
    pub fn SharedFoldersAndFiles() -> (code: ServerCode)
        ensures
            code@ == 35,
    {
        ServerCode { number: 35 }
    }

    /// `GetUserStats`, number 36 on the wire.
    #[allow(non_snake_case)]
    pub fn GetUserStats() -> (code: ServerCode)
        ensures
            code@ == 36,
    {
        ServerCode { number: 36 }
    }

    /// `KickedFromServer`, number 41 on the wire.
    #[allow(non_snake_case)]
    pub fn KickedFromServer() -> (code: ServerCode)
        ensures
            code@ == 41,
    {
        ServerCode { number: 41 }
    }

    /// `UserSearch`, number 42 on the wire.
    #[allow(non_snake_case)]
    pub fn UserSearch() -> (code: ServerCode)
        ensures
            code@ == 42,
    {
        ServerCode { number: 42 }
    }

    /// `InterestAdd`, number 51 on the wire.
    #[allow(non_snake_case)]
    pub fn InterestAdd() -> (code: ServerCode)
        ensures
            code@ == 51,
    {
        ServerCode { number: 51 }
    }

    /// `InterestRemove`, number 52 on the wire.
    #[allow(non_snake_case)]
    pub fn InterestRemove() -> (code: ServerCode)
        ensures
            code@ == 52,
    {
        ServerCode { number: 52 }
    }

    /// `GetRecommendations`, number 54 on the wire.
    #[allow(non_snake_case)]
    pub fn GetRecommendations() -> (code: ServerCode)
        ensures
            code@ == 54,
    {
        ServerCode { number: 54 }
    }

    /// `GetGlobalRecommendations`, number 56 on the wire.
    #[allow(non_snake_case)]
    pub fn GetGlobalRecommendations() -> (code: ServerCode)
        ensures
            code@ == 56,
    {
        ServerCode { number: 56 }
    }

    /// `GetUserInterests`, number 57 on the wire.
    #[allow(non_snake_case)]
    pub fn GetUserInterests() -> (code: ServerCode)
        ensures
            code@ == 57,
    {
        ServerCode { number: 57 }
    }

    /// `RoomList`, number 64 on the wire.
    #[allow(non_snake_case)]
    pub fn RoomList() -> (code: ServerCode)
        ensures
            code@ == 64,
    {
        ServerCode { number: 64 }
    }

    /// `GlobalAdminMessage`, number 66 on the wire.
    #[allow(non_snake_case)]
    pub fn GlobalAdminMessage() -> (code: ServerCode)
        ensures
            code@ == 66,
    {
        ServerCode { number: 66 }
    }

    /// `PrivilegedUsers`, number 69 on the wire.
    #[allow(non_snake_case)]
    pub fn PrivilegedUsers() -> (code: ServerCode)
        ensures
            code@ == 69,
    {
        ServerCode { number: 69 }
    }

    /// `HaveNoParents`, number 71 on the wire.
    #[allow(non_snake_case)]
    pub fn HaveNoParents() -> (code: ServerCode)
        ensures
            code@ == 71,
    {
        ServerCode { number: 71 }
    }

    /// `ParentMinSpeed`, number 83 on the wire.
    #[allow(non_snake_case)]
    pub fn ParentMinSpeed() -> (code: ServerCode)
        ensures
            code@ == 83,
    {
        ServerCode { number: 83 }
    }

    /// `ParentSpeedRatio`, number 84 on the wire.
    #[allow(non_snake_case)]
    pub fn ParentSpeedRatio() -> (code: ServerCode)
        ensures
            code@ == 84,
    {
        ServerCode { number: 84 }
    }

    /// `CheckPrivileges`, number 92 on the wire.
    #[allow(non_snake_case)]
    pub fn CheckPrivileges() -> (code: ServerCode)
        ensures
            code@ == 92,
    {
        ServerCode { number: 92 }
    }

    /// `EmbeddedMessages`, number 93 on the wire.
    #[allow(non_snake_case)]
    pub fn EmbeddedMessages() -> (code: ServerCode)
        ensures
            code@ == 93,
    {
        ServerCode { number: 93 }
    }

    /// `AcceptChildren`, number 100 on the wire.
    #[allow(non_snake_case)]
    pub fn AcceptChildren() -> (code: ServerCode)
        ensures
            code@ == 100,
    {
        ServerCode { number: 100 }
    }

    /// `PossibleParents`, number 102 on the wire.
    #[allow(non_snake_case)]
    pub fn PossibleParents() -> (code: ServerCode)
        ensures
            code@ == 102,
    {
        ServerCode { number: 102 }
    }

    /// `WishlistSearch`, number 103 on the wire.
    #[allow(non_snake_case)]
    pub fn WishlistSearch() -> (code: ServerCode)
        ensures
            code@ == 103,
    {
        ServerCode { number: 103 }
    }

    /// `WishlistInterval`, number 104 on the wire.
    #[allow(non_snake_case)]
    pub fn WishlistInterval() -> (code: ServerCode)
        ensures
            code@ == 104,
    {
        ServerCode { number: 104 }
    }

    /// `GetSimilarUsers`, number 110 on the wire.
    #[allow(non_snake_case)]
    pub fn GetSimilarUsers() -> (code: ServerCode)
        ensures
            code@ == 110,
    {
        ServerCode { number: 110 }
    }

    /// `GetItemRecommendations`, number 111 on the wire.
    #[allow(non_snake_case)]
    pub fn GetItemRecommendations() -> (code: ServerCode)
        ensures
            code@ == 111,
    {
        ServerCode { number: 111 }
    }

    /// `GetItemSimilarUsers`, number 112 on the wire.
    #[allow(non_snake_case)]
    pub fn GetItemSimilarUsers() -> (code: ServerCode)
        ensures
            code@ == 112,
    {
        ServerCode { number: 112 }
    }

    /// `RoomTickers`, number 113 on the wire.
    #[allow(non_snake_case)]
    pub fn RoomTickers() -> (code: ServerCode)
        ensures
            code@ == 113,
    {
        ServerCode { number: 113 }
    }

    /// `RoomTickerAdd`, number 114 on the wire.
    #[allow(non_snake_case)]
    pub fn RoomTickerAdd() -> (code: ServerCode)
        ensures
            code@ == 114,
    {
        ServerCode { number: 114 }
    }

    /// `RoomTickerRemove`, number 115 on the wire.
    #[allow(non_snake_case)]
    pub fn RoomTickerRemove() -> (code: ServerCode)
        ensures
            code@ == 115,
    {
        ServerCode { number: 115 }
    }

    /// `SetRoomTicker`, number 116 on the wire.
    #[allow(non_snake_case)]
    pub fn SetRoomTicker() -> (code: ServerCode)
        ensures
            code@ == 116,
    {
        ServerCode { number: 116 }
    }

    /// `HatedInterestAdd`, number 117 on the wire.
    #[allow(non_snake_case)]
    pub fn HatedInterestAdd() -> (code: ServerCode)
        ensures
            code@ == 117,
    {
        ServerCode { number: 117 }
    }

    /// `HatedInterestRemove`, number 118 on the wire.
    #[allow(non_snake_case)]
    pub fn HatedInterestRemove() -> (code: ServerCode)
        ensures
            code@ == 118,
    {
        ServerCode { number: 118 }
    }

    /// `RoomSearch`, number 120 on the wire.
    #[allow(non_snake_case)]
    pub fn RoomSearch() -> (code: ServerCode)
        ensures
            code@ == 120,
    {
        ServerCode { number: 120 }
    }

    /// `SendUploadSpeed`, number 121 on the wire.
    #[allow(non_snake_case)]
    pub fn SendUploadSpeed() -> (code: ServerCode)
        ensures
            code@ == 121,
    {
        ServerCode { number: 121 }
    }

    /// `GivePrivileges`, number 123 on the wire.
    #[allow(non_snake_case)]
    pub fn GivePrivileges() -> (code: ServerCode)
        ensures
            code@ == 123,
    {
        ServerCode { number: 123 }
    }

    /// `BranchLevel`, number 126 on the wire.
    #[allow(non_snake_case)]
    pub fn BranchLevel() -> (code: ServerCode)
        ensures
            code@ == 126,
    {
        ServerCode { number: 126 }
    }

    /// `BranchRoot`, number 127 on the wire.
    #[allow(non_snake_case)]
    pub fn BranchRoot() -> (code: ServerCode)
        ensures
            code@ == 127,
    {
        ServerCode { number: 127 }
    }

    /// `ResetDistributed`, number 130 on the wire.
    #[allow(non_snake_case)]
    pub fn ResetDistributed() -> (code: ServerCode)
        ensures
            code@ == 130,
    {
        ServerCode { number: 130 }
    }

    /// `RoomMembers`, number 133 on the wire.
    #[allow(non_snake_case)]
    pub fn RoomMembers() -> (code: ServerCode)
        ensures
            code@ == 133,
    {
        ServerCode { number: 133 }
    }

    /// `AddRoomMember`, number 134 on the wire.
    #[allow(non_snake_case)]
    pub fn AddRoomMember() -> (code: ServerCode)
        ensures
            code@ == 134,
    {
        ServerCode { number: 134 }
    }

    /// `RemoveRoomMember`, number 135 on the wire.
    #[allow(non_snake_case)]
    pub fn RemoveRoomMember() -> (code: ServerCode)
        ensures
            code@ == 135,
    {
        ServerCode { number: 135 }
    }

    /// `CancelRoomMembership`, number 136 on the wire.
    #[allow(non_snake_case)]
    pub fn CancelRoomMembership() -> (code: ServerCode)
        ensures
            code@ == 136,
    {
        ServerCode { number: 136 }
    }

    /// `CancelRoomOwnership`, number 137 on the wire.
    #[allow(non_snake_case)]
    pub fn CancelRoomOwnership() -> (code: ServerCode)
        ensures
            code@ == 137,
    {
        ServerCode { number: 137 }
    }

    /// `RoomMembershipGranted`, number 139 on the wire.
    #[allow(non_snake_case)]
    pub fn RoomMembershipGranted() -> (code: ServerCode)
        ensures
            code@ == 139,
    {
        ServerCode { number: 139 }
    }

    /// `RoomMembershipRevoked`, number 140 on the wire.
    #[allow(non_snake_case)]
    pub fn RoomMembershipRevoked() -> (code: ServerCode)
        ensures
            code@ == 140,
    {
        ServerCode { number: 140 }
    }

    /// `EnableRoomInvitations`, number 141 on the wire.
    #[allow(non_snake_case)]
    pub fn EnableRoomInvitations() -> (code: ServerCode)
        ensures
            code@ == 141,
    {
        ServerCode { number: 141 }
    }

    /// `NewPassword`, number 142 on the wire.
    #[allow(non_snake_case)]
    pub fn NewPassword() -> (code: ServerCode)
        ensures
            code@ == 142,
    {
        ServerCode { number: 142 }
    }

    /// `AddRoomOperator`, number 143 on the wire.
    #[allow(non_snake_case)]
    pub fn AddRoomOperator() -> (code: ServerCode)
        ensures
            code@ == 143,
    {
        ServerCode { number: 143 }
    }

    /// `RemoveRoomOperator`, number 144 on the wire.
    #[allow(non_snake_case)]
    pub fn RemoveRoomOperator() -> (code: ServerCode)
        ensures
            code@ == 144,
    {
        ServerCode { number: 144 }
    }

    /// `RoomOperatorshipGranted`, number 145 on the wire.
    #[allow(non_snake_case)]
    pub fn RoomOperatorshipGranted() -> (code: ServerCode)
        ensures
            code@ == 145,
    {
        ServerCode { number: 145 }
    }

    /// `RoomOperatorshipRevoked`, number 146 on the wire.
    #[allow(non_snake_case)]
    pub fn RoomOperatorshipRevoked() -> (code: ServerCode)
        ensures
            code@ == 146,
    {
        ServerCode { number: 146 }
    }

    /// `RoomOperators`, number 148 on the wire.
    #[allow(non_snake_case)]
    pub fn RoomOperators() -> (code: ServerCode)
        ensures
            code@ == 148,
    {
        ServerCode { number: 148 }
    }

    /// `MessageUsers`, number 149 on the wire.
    #[allow(non_snake_case)]
    pub fn MessageUsers() -> (code: ServerCode)
        ensures
            code@ == 149,
    {
        ServerCode { number: 149 }
    }

    /// `JoinGlobalRoom`, number 150 on the wire.
    #[allow(non_snake_case)]
    pub fn JoinGlobalRoom() -> (code: ServerCode)
        ensures
            code@ == 150,
    {
        ServerCode { number: 150 }
    }

    /// `LeaveGlobalRoom`, number 151 on the wire.
    #[allow(non_snake_case)]
    pub fn LeaveGlobalRoom() -> (code: ServerCode)
        ensures
            code@ == 151,
    {
        ServerCode { number: 151 }
    }

    /// `GlobalRoomMessage`, number 152 on the wire.
    #[allow(non_snake_case)]
    pub fn GlobalRoomMessage() -> (code: ServerCode)
        ensures
            code@ == 152,
    {
        ServerCode { number: 152 }
    }

    /// `ExcludedSearchPhrases`, number 160 on the wire.
    #[allow(non_snake_case)]
    pub fn ExcludedSearchPhrases() -> (code: ServerCode)
        ensures
            code@ == 160,
    {
        ServerCode { number: 160 }
    }

    /// `CantConnectToPeer`, number 1001 on the wire.
    #[allow(non_snake_case)]
    pub fn CantConnectToPeer() -> (code: ServerCode)
        ensures
            code@ == 1001,
    {
        ServerCode { number: 1001 }
    }

    /// `CantCreateRoom`, number 1003 on the wire.
    #[allow(non_snake_case)]
    pub fn CantCreateRoom() -> (code: ServerCode)
        ensures
            code@ == 1003,
    {
        ServerCode { number: 1003 }
    }
}

impl From<ServerCode> for u32 {
    fn from(value: ServerCode) -> (number: u32)
        ensures
            number == value@,
            is_server_code(number),
    {
        proof {
            use_type_invariant(&value);
        }
        value.number
    }
}

impl vstd::std_specs::convert::FromSpecImpl<ServerCode> for u32 {
    open spec fn obeys_from_spec() -> bool {
        true
    }

    open spec fn from_spec(value: ServerCode) -> u32 {
        value@
    }
}

impl TryFrom<u32> for ServerCode {
    type Error = ();

    /// The code with this number, or an error when no known code has it.
    fn try_from(value: u32) -> (code: Result<ServerCode, ()>)
        ensures
            code == (if is_server_code(value) {
                Ok(server_code_numbered(value))
            } else {
                Err(())
            }),
    {
        match value {
            1 | 2 | 3 | 5 | 6 | 7 | 13 | 14 | 15 | 16 | 17 | 18 | 22 | 23 | 26 | 28 | 32 | 35 | 36 | 41 | 42 | 51 | 52 | 54 | 56 | 57 | 64 | 66 | 69 | 71 | 83 | 84 | 92 | 93 | 100 | 102 | 103 | 104 | 110 | 111 | 112 | 113 | 114 | 115 | 116 | 117 | 118 | 120 | 121 | 123 | 126 | 127 | 130 | 133 | 134 | 135 | 136 | 137 | 139 | 140 | 141 | 142 | 143 | 144 | 145 | 146 | 148 | 149 | 150 | 151 | 152 | 160 | 1001 | 1003 => Ok(ServerCode { number: value }),
            _ => Err(()),
        }
    }
}

impl vstd::std_specs::convert::TryFromSpecImpl<u32> for ServerCode {
    open spec fn obeys_try_from_spec() -> bool {
        true
    }

    open spec fn try_from_spec(value: u32) -> Result<ServerCode, ()> {
        if is_server_code(value) {
            Ok(server_code_numbered(value))
        } else {
            Err(())
        }
    }
}

/// The code made from a number has that number.
pub proof fn lemma_server_code_numbered(number: u32)
    ensures
        server_code_numbered(number)@ == number,
{
}

/// A server code is exactly its number: the code made from a code's number
/// is that code. With the contracts of `from` and `try_from`, converting a
/// code to its number and back gives the same code, and a number that
/// converts to a code is that code's number.
pub proof fn lemma_server_code_roundtrip(code: ServerCode)
    ensures
        server_code_numbered(code@) == code,
{
}

/// A message from the server as it was read: its length field, its code and
/// the bytes that follow the code.
pub struct ServerFrame<'a> {
    pub length: u32,
    pub code: ServerCode,
    pub payload: &'a [u8],
}

/// A message from a peer as it was read: its length field, its code and the
/// bytes that follow the code.
pub struct PeerFrame<'a> {
    pub length: u32,
    pub code: PeerCode,
    pub payload: &'a [u8],
}

} // verus!
